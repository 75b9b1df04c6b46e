mod error;
pub mod messages;
mod room;
mod user;

pub use error::{CommonError, CommonErrorView};
pub use room::{
    lemma_room_keeps_names_unique, lemma_room_message_stays_in_room, error_reply, fan_out, report,
    requester_view, room_message, room_step, Delivery, DeliveryView, RoomManager, RoomName,
    RoomStep, RoomView,
};
pub use user::{
    clone_names, distinct_mailboxes, distinct_names, lemma_mailboxes_are_private,
    lemma_with_user_is_sound, lemma_without_user_is_sound, find_user, has_name, lemma_position_of,
    lemma_remove_keeps_distinct, names_of, names_of_users, position_of, Mailbox, User, UserManager,
    UserManagerView, UserName, UserView,
};
