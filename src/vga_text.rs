//! Writing text into a console region, two bytes per character cell.

use vstd::prelude::*;
use crate::console::{ByteWrite, TextBuffer};

verus! {

/// Physical address of the VGA text-mode region on x86 machines.
pub const VGA_BUFFER_ADDR: usize = 0xb8000;

/// Attribute byte for white characters on a black background.
pub const WHITE_ON_BLACK: u8 = 0x0f;

/// The number of bytes in the greeting.
pub const HELLO_LEN: usize = 13;

/// The greeting, byte by byte: `Hello, World!` in ASCII.
pub open spec fn hello_spec() -> Seq<u8> {
    seq![72u8, 101, 108, 108, 111, 44, 32, 87, 111, 114, 108, 100, 33]
}

/// The byte that a written message leaves at `offset`: the character of its
/// cell at an even offset, the attribute at an odd one.
pub open spec fn cell_byte(msg: Seq<u8>, offset: int) -> u8 {
    if offset % 2 == 0 {
        msg[offset / 2]
    } else {
        WHITE_ON_BLACK
    }
}

/// The region `before` once `msg` has been written from cell zero: the first
/// `2 * msg.len()` bytes hold the message's cells, the rest are untouched.
pub open spec fn rendered(before: Seq<u8>, msg: Seq<u8>) -> Seq<u8> {
    Seq::new(
        before.len(),
        |j: int|
            if j < 2 * msg.len() {
                cell_byte(msg, j)
            } else {
                before[j]
            },
    )
}

/// The writes that put `msg` on screen, in the order they are made: offset
/// zero first, each cell's character right before its attribute.
pub open spec fn write_sequence(msg: Seq<u8>) -> Seq<ByteWrite> {
    Seq::new(
        2 * msg.len(),
        |k: int| ByteWrite { offset: k as usize, value: cell_byte(msg, k) },
    )
}

/// The greeting as bytes.
pub fn hello_message() -> (r: Vec<u8>)
    ensures
        r@ == hello_spec(),
        r@.len() == HELLO_LEN,
{
    let r: Vec<u8> = vec![72u8, 101, 108, 108, 111, 44, 32, 87, 111, 114, 108, 100, 33];
    assert(r@ =~= hello_spec());
    r
}

/// Writes `msg` into `screen` from cell zero, one cell at a time in
/// ascending order, each character with the white-on-black attribute.
pub fn print_message(screen: &mut TextBuffer, msg: &[u8])
    requires
        2 * msg@.len() <= old(screen).cells().len(),
    ensures
        final(screen).cells() == rendered(old(screen).cells(), msg@),
        final(screen).writes() == old(screen).writes() + write_sequence(msg@),
{
    let n: usize = msg.len();
    let mut i: usize = 0;
    while i < n
        invariant
            n == msg@.len(),
            i <= n,
            2 * n <= old(screen).cells().len(),
            screen.cells() == rendered(old(screen).cells(), msg@.take(i as int)),
            screen.writes() == old(screen).writes() + write_sequence(msg@.take(i as int)),
        decreases n - i,
    {
        screen.write_cell(i, msg[i], WHITE_ON_BLACK);
        proof {
            let done = msg@.take(i as int);
            let next = msg@.take(i + 1);
            assert(screen.cells() =~= rendered(old(screen).cells(), next)) by {
                assert forall|j: int| 0 <= j < screen.cells().len() implies
                    screen.cells()[j] == rendered(old(screen).cells(), next)[j] by {
                    if j < 2 * i {
                        assert(next[j / 2] == done[j / 2]);
                    }
                }
            }
            assert(write_sequence(next) =~= write_sequence(done).push(
                ByteWrite { offset: (2 * i) as usize, value: msg@[i as int] },
            ).push(ByteWrite { offset: (2 * i + 1) as usize, value: WHITE_ON_BLACK })) by {
                assert forall|k: int| 0 <= k < 2 * i implies
                    write_sequence(next)[k] == write_sequence(done)[k] by {
                    assert(next[k / 2] == done[k / 2]);
                }
            }
            assert(screen.writes() =~= old(screen).writes() + write_sequence(next));
        }
        i = i + 1;
    }
    proof {
        assert(msg@.take(n as int) =~= msg@);
    }
}

/// Writes the greeting into `screen` from cell zero.
pub fn print_hello_world(screen: &mut TextBuffer)
    requires
        2 * HELLO_LEN <= old(screen).cells().len(),
    ensures
        final(screen).cells() == rendered(old(screen).cells(), hello_spec()),
        final(screen).writes() == old(screen).writes() + write_sequence(hello_spec()),
{
    let message = hello_message();
    print_message(screen, message.as_slice());
}

/// After `msg` is written from cell zero, byte `2 * i` holds its `i`-th
/// character and byte `2 * i + 1` the white-on-black attribute, for every
/// index of the message, and every byte past its last cell is as before.
pub proof fn lemma_rendered_cells(before: Seq<u8>, msg: Seq<u8>)
    requires
        2 * msg.len() <= before.len(),
    ensures
        rendered(before, msg).len() == before.len(),
        forall|i: int|
            0 <= i < msg.len() ==> {
                &&& #[trigger] rendered(before, msg)[2 * i] == msg[i]
                &&& rendered(before, msg)[2 * i + 1] == WHITE_ON_BLACK
            },
        forall|j: int|
            2 * msg.len() <= j < before.len() ==> #[trigger] rendered(before, msg)[j] == before[j],
{
    assert forall|i: int| 0 <= i < msg.len() implies {
        &&& #[trigger] rendered(before, msg)[2 * i] == msg[i]
        &&& rendered(before, msg)[2 * i + 1] == WHITE_ON_BLACK
    } by {
        assert((2 * i) % 2 == 0 && (2 * i) / 2 == i);
        assert((2 * i + 1) % 2 == 1);
    }
}

/// The writes come in strictly ascending offset order, cell by cell with the
/// character right before the attribute, and none lands outside the
/// message's cells.
pub proof fn lemma_write_order(msg: Seq<u8>)
    requires
        2 * msg.len() <= usize::MAX,
    ensures
        write_sequence(msg).len() == 2 * msg.len(),
        forall|k1: int, k2: int|
            0 <= k1 < k2 < write_sequence(msg).len() ==> (#[trigger] write_sequence(msg)[k1]).offset
                < (#[trigger] write_sequence(msg)[k2]).offset,
        forall|i: int|
            0 <= i < msg.len() ==> {
                &&& #[trigger] write_sequence(msg)[2 * i] == ByteWrite {
                    offset: (2 * i) as usize,
                    value: msg[i],
                }
                &&& write_sequence(msg)[2 * i + 1] == ByteWrite {
                    offset: (2 * i + 1) as usize,
                    value: WHITE_ON_BLACK,
                }
            },
        forall|k: int|
            0 <= k < write_sequence(msg).len() ==> (#[trigger] write_sequence(msg)[k]).offset < 2
                * msg.len(),
{
    assert forall|i: int| 0 <= i < msg.len() implies {
        &&& #[trigger] write_sequence(msg)[2 * i] == ByteWrite {
            offset: (2 * i) as usize,
            value: msg[i],
        }
        &&& write_sequence(msg)[2 * i + 1] == ByteWrite {
            offset: (2 * i + 1) as usize,
            value: WHITE_ON_BLACK,
        }
    } by {
        assert((2 * i) % 2 == 0 && (2 * i) / 2 == i);
        assert((2 * i + 1) % 2 == 1);
    }
}

} // verus!
