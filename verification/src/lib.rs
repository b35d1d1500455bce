//! HotDog: a small photo-browsing application modelled as verified logic.
//!
//! The library holds the application's observable behaviour: the error
//! taxonomy, the fetch-response decoder, the current-photo view state with
//! its stale-fetch protection, the append-only store of saved photos, and
//! the lazily-initialized store singleton.

mod context;
mod errors;
mod fetch;
mod singleton;
mod store;
mod view;

pub use context::{AppContext, TitleState, mount_app};
pub use errors::AppError;
pub use fetch::{decode_photo_response, dog_api_message, interpret_fetch};
pub use singleton::{
    SingletonModel, StoreSingleton, accessed, accessed_times, fresh_singleton,
    lemma_singleton_once, save_dog, singleton_wf,
};
pub use store::{
    DogStore, count_char, encode_line, lemma_count_char_add, lemma_log_append_only,
    lemma_log_line_count, lemma_log_round_trip, log_encoding, log_line, newline_free,
    split_lines, split_lines_from, validate_save,
};
pub use view::{
    DogView, FetchTicket, PhotoStateModel, PhotoViewState, ViewModel, applied,
    lemma_fetch_failure_isolation, lemma_save_captures_pre_refetch, lemma_stale_fetch_discard,
    loaded_url, outcome_model, outcome_state, rendered_of, restarted,
};
