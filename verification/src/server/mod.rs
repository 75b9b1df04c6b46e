mod client_handler;
mod error;
mod processor;
mod room_handler;
mod style;
mod user_handler;

pub use client_handler::{
    accept_step, lemma_global_chat_skips_sender, lemma_session_end_disconnects, active_step,
    admission_step, admission_view, closed, disconnect_of, handshake_step, handshake_view, is_step,
    outcome_view, session_step, timeout_step, ClientHandler, SessionAction, SessionActionView,
    SessionEvent, SessionEventView, SessionState, SessionStep, SessionStepView, SessionView,
    HANDSHAKE_TIMEOUT_SECS,
};
pub use error::{ServerError, ServerErrorView};
pub use processor::{
    client_route, internal_route, route, to_rooms, to_users, Route, RouteView, ServerProcessor,
};
pub use room_handler::{
    listed, refuse, registry_step, tell, RoomAction, RoomActionView, RoomProcessor,
};
pub use style::painted_green;
pub use user_handler::{
    command, lemma_disconnect_is_idempotent, lemma_name_in_use_is_refused, lemma_ping_is_answered,
    lemma_private_message_to_oneself, lemma_private_message_to_unknown_user,
    lemma_step_keeps_registry_sound, notice, reply_view, user_step, UserAction, UserActionView,
    UserProcessor,
};
