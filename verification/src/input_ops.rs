//! Pasting text into the terminal.
use vstd::prelude::*;
use crate::text::push_all;

verus! {

/// The bracketed-paste start marker `ESC [ 200 ~`.
pub open spec fn paste_start() -> Seq<u8> {
    seq![0x1bu8, 0x5bu8, 0x32u8, 0x30u8, 0x30u8, 0x7eu8]
}

/// The bracketed-paste end marker `ESC [ 201 ~`.
pub open spec fn paste_end() -> Seq<u8> {
    seq![0x1bu8, 0x5bu8, 0x32u8, 0x30u8, 0x31u8, 0x7eu8]
}

/// The bytes a paste of `text` sends: its UTF-8 bytes, between the
/// bracketed-paste markers when the program asked for them.
pub fn bracketed_paste_encode(text: &str, bracketed: bool) -> (r: Vec<u8>)
    ensures
        r@ == if bracketed {
            paste_start() + vstd::utf8::encode_utf8(text@) + paste_end()
        } else {
            vstd::utf8::encode_utf8(text@)
        },
{
    let mut data: Vec<u8> = Vec::new();
    if bracketed {
        let start = vec![0x1bu8, 0x5bu8, 0x32u8, 0x30u8, 0x30u8, 0x7eu8];
        assert(start@ =~= paste_start());
        push_all(&mut data, start.as_slice());
    }
    push_all(&mut data, text.as_bytes());
    if bracketed {
        let end = vec![0x1bu8, 0x5bu8, 0x32u8, 0x30u8, 0x31u8, 0x7eu8];
        assert(end@ =~= paste_end());
        push_all(&mut data, end.as_slice());
    }
    assert(data@ =~= if bracketed {
        paste_start() + vstd::utf8::encode_utf8(text@) + paste_end()
    } else {
        vstd::utf8::encode_utf8(text@)
    });
    data
}

} // verus!
