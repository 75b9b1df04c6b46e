mod error;
mod input;
mod session;

pub use error::{ClientError, ClientErrorView};
pub use input::{
    first_word, input_request, lowercase, parse_command, parse_user_input, request_view,
    rest_of_line, second_word, word_end,
};
pub use session::{after_send, pong_check, AfterSend, Client, PongCheck};
