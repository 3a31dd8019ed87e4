//! How one service is laid out as a framed card for the terminal.

use vstd::prelude::*;
use vstd::utf8::encode_utf8;
use crate::services::{Service, ServiceView};

verus! {

/// The text shown for a command: the command itself, or a placeholder where
/// the service stores none.
pub open spec fn shown(command: Option<Seq<char>>) -> Seq<char> {
    match command {
        Some(line) => line,
        None => "N/A"@,
    }
}

/// The length of `text` in bytes, as `str::len` reports it.
pub open spec fn byte_len(text: Seq<char>) -> nat {
    (encode_utf8(text).len() as usize) as nat
}

/// The larger of two numbers.
pub open spec fn larger(a: nat, b: nat) -> nat {
    if a >= b {
        a
    } else {
        b
    }
}

/// The width of the widest line of the card of `record`, label included,
/// frame and padding left out.
pub open spec fn content_width(record: ServiceView) -> nat {
    larger(
        larger(
            larger(byte_len(record.name), byte_len(shown(record.start_command)) + 15),
            byte_len(shown(record.stop_command)) + 14,
        ),
        byte_len(shown(record.restart_command)) + 17,
    )
}

/// The width of the whole card of `record`, frame included.
pub open spec fn card_width(record: ServiceView) -> nat {
    content_width(record) + 10
}

/// The card of one service: the three command texts, the width of the
/// frame, and the columns into which each value is written, left aligned.
#[derive(Debug, PartialEq, Eq)]
pub struct Card {
    pub start_command: String,
    pub stop_command: String,
    pub restart_command: String,
    pub width: usize,
    pub id_width: usize,
    pub name_width: usize,
    pub start_width: usize,
    pub stop_width: usize,
    pub restart_width: usize,
}

/// `card` is the card of `record`: every line of it, with its label, the
/// padding of two and the frame, is exactly as wide as the card.
pub open spec fn lays_out(record: ServiceView, card: Card) -> bool {
    &&& card.start_command@ == shown(record.start_command)
    &&& card.stop_command@ == shown(record.stop_command)
    &&& card.restart_command@ == shown(record.restart_command)
    &&& card.width == card_width(record)
    &&& card.id_width == card.width - 8
    &&& card.name_width == card.width - 10
    &&& card.start_width == card.width - 19
    &&& card.stop_width == card.width - 18
    &&& card.restart_width == card.width - 21
}

/// The text shown for a command.
pub fn shown_text(command: &Option<String>) -> (text: String)
    ensures
        text@ == shown(crate::services::text_view(*command)),
{
    match command {
        Some(line) => line.clone(),
        None => "N/A".to_owned(),
    }
}

/// Lays out the card of `service`, or gives `None` where its width does not
/// fit the machine's word.
pub fn layout(service: &Service) -> (card: Option<Card>)
    ensures
        card is Some <==> card_width(service@) <= usize::MAX,
        card matches Some(laid) ==> lays_out(service@, laid),
{
    let start_command = shown_text(&service.start_command);
    let stop_command = shown_text(&service.stop_command);
    let restart_command = shown_text(&service.restart_command);
    let mut widest: usize = service.name.as_str().len();
    match start_command.as_str().len().checked_add(15) {
        Some(line) => {
            if line > widest {
                widest = line;
            }
        },
        None => {
            return None;
        },
    }
    match stop_command.as_str().len().checked_add(14) {
        Some(line) => {
            if line > widest {
                widest = line;
            }
        },
        None => {
            return None;
        },
    }
    match restart_command.as_str().len().checked_add(17) {
        Some(line) => {
            if line > widest {
                widest = line;
            }
        },
        None => {
            return None;
        },
    }
    match widest.checked_add(10) {
        Some(width) => Some(
            Card {
                start_command,
                stop_command,
                restart_command,
                width,
                id_width: width - 8,
                name_width: width - 10,
                start_width: width - 19,
                stop_width: width - 18,
                restart_width: width - 21,
            },
        ),
        None => None,
    }
}

} // verus!
