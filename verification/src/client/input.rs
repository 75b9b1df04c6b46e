use crate::common::messages::{ClientMessage, ClientMessageView};
use crate::common::UserName;
use vstd::prelude::*;
use vstd::string::{StrSliceExecFns, StringExecFns};

verus! {

/// The text in lower case, as the Unicode tables of std map it.
pub uninterp spec fn lowercase(text: Seq<char>) -> Seq<char>;

/// `str::to_lowercase` of std: the lower-case form of the text.
#[verifier::external_body]
fn to_lowercase(text: &str) -> (lowered: String)
    ensures
        lowered@ == lowercase(text@),
{
    text.to_lowercase()
}

/// The position of the first space of `line` at or behind `from`; the
/// length of `line` where there is none.
pub open spec fn word_end(line: Seq<char>, from: int) -> int
    decreases line.len() - from,
{
    if from < 0 || from >= line.len() {
        line.len() as int
    } else if line[from] == ' ' {
        from
    } else {
        word_end(line, from + 1)
    }
}

/// The first word of `line`: what stands before its first space.
pub open spec fn first_word(line: Seq<char>) -> Seq<char> {
    line.subrange(0, word_end(line, 0))
}

/// The second word of `line`: what stands between its first space and the
/// next; empty where `line` has no space.
pub open spec fn second_word(line: Seq<char>) -> Seq<char> {
    let first = word_end(line, 0);
    if first >= line.len() {
        Seq::empty()
    } else {
        line.subrange(first + 1, word_end(line, first + 1))
    }
}

/// What follows the second space of `line`; empty where `line` has fewer
/// than two spaces.
pub open spec fn rest_of_line(line: Seq<char>) -> Seq<char> {
    let first = word_end(line, 0);
    if first >= line.len() {
        Seq::empty()
    } else {
        let second = word_end(line, first + 1);
        if second >= line.len() {
            Seq::empty()
        } else {
            line.subrange(second + 1, line.len() as int)
        }
    }
}

/// What a line of input asks for. A line that begins with a colon is a
/// command, told by its first word in the lower-case form `command`: `:quit`
/// disconnects, `:users` lists the users, `:ping` sends `nonce`, and `:pm`
/// sends the rest of the line to the user that the second word names; any
/// other command asks for nothing. Every other line is global chat.
pub open spec fn input_request(line: Seq<char>, command: Seq<char>, nonce: u16) -> Option<
    ClientMessageView,
> {
    if line.len() > 0 && line[0] == ':' {
        if command == ":quit"@ {
            Some(ClientMessageView::Disconnect)
        } else if command == ":users"@ {
            Some(ClientMessageView::ListUsers)
        } else if command == ":ping"@ {
            Some(ClientMessageView::Ping(nonce))
        } else if command == ":pm"@ {
            Some(
                ClientMessageView::PrivateMessage {
                    to_user: second_word(line),
                    content: rest_of_line(line),
                },
            )
        } else {
            None
        }
    } else {
        Some(ClientMessageView::GlobalChatMessage(line))
    }
}

/// Mathematical value of a request that may be missing.
pub open spec fn request_view(request: Option<ClientMessage>) -> Option<ClientMessageView> {
    match request {
        Some(message) => Some(message@),
        None => None,
    }
}

/// The position of the first space of `line` at or behind `from`.
fn find_word_end(line: &str, from: usize) -> (end: usize)
    requires
        from <= line@.len(),
    ensures
        end == word_end(line@, from as int),
        from <= end <= line@.len(),
{
    let len = line.unicode_len();
    let mut i: usize = from;
    while i < len
        invariant
            from <= i <= len,
            len == line@.len(),
            word_end(line@, from as int) == word_end(line@, i as int),
        decreases len - i,
    {
        if line.get_char(i) == ' ' {
            return i;
        }
        i += 1;
    }
    i
}

/// What a line of input asks for: the request for the line's first word in
/// lower case.
pub fn parse_user_input(line: &str, nonce: u16) -> (request: Option<ClientMessage>)
    ensures
        request_view(request) == input_request(line@, lowercase(first_word(line@)), nonce),
{
    let end = find_word_end(line, 0);
    let command = to_lowercase(line.substring_char(0, end));
    parse_command(line, command.as_str(), nonce)
}

/// What a line of input asks for, with `command` as the lower-case form of
/// the line's first word.
pub fn parse_command(line: &str, command: &str, nonce: u16) -> (request: Option<ClientMessage>)
    ensures
        request_view(request) == input_request(line@, command@, nonce),
{
    let len = line.unicode_len();
    if len == 0 || line.get_char(0) != ':' {
        return Some(ClientMessage::GlobalChatMessage(String::from_str(line)));
    }
    let command = String::from_str(command);
    if command == String::from_str(":quit") {
        Some(ClientMessage::Disconnect)
    } else if command == String::from_str(":users") {
        Some(ClientMessage::ListUsers)
    } else if command == String::from_str(":ping") {
        Some(ClientMessage::Ping(nonce))
    } else if command == String::from_str(":pm") {
        let first = find_word_end(line, 0);
        proof {
            reveal_strlit("");
            assert(""@ =~= Seq::<char>::empty());
        }
        if first >= len {
            return Some(
                ClientMessage::PrivateMessage {
                    to_user: UserName::new(""),
                    content: String::new(),
                },
            );
        }
        let second = find_word_end(line, first + 1);
        let to_user = UserName::new(line.substring_char(first + 1, second));
        let content = if second >= len {
            String::new()
        } else {
            String::from_str(line.substring_char(second + 1, len))
        };
        Some(ClientMessage::PrivateMessage { to_user, content })
    } else {
        None
    }
}

} // verus!
