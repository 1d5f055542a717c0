//! Text for the firmware's console: 16-bit units, a carriage return
//! before every line feed, handed over in chunks that fit a small buffer
//! and end in a zero.

use super::structures::{load_system_table, SystemTableRegistry};
use vstd::prelude::*;
use vstd::string::StrSliceExecFns;

verus! {

/// The units in which the console takes one character: the character
/// itself where it fits in 16 bits, and a pair of surrogates where it
/// does not.
pub open spec fn spec_utf16_char(c: char) -> Seq<u16> {
    let v = c as u32;
    if v < 0x1_0000 {
        seq![v as u16]
    } else {
        seq![
            (0xD800 + (v - 0x1_0000) / 0x400) as u16,
            (0xDC00 + (v - 0x1_0000) % 0x400) as u16,
        ]
    }
}

/// The units in which the console takes a text.
pub open spec fn spec_utf16(text: Seq<char>) -> Seq<u16>
    decreases text.len(),
{
    if text.len() == 0 {
        Seq::empty()
    } else {
        spec_utf16(text.drop_last()) + spec_utf16_char(text.last())
    }
}

/// Encodes a text in the 16-bit units of the console.
pub fn encode_utf16(text: &str) -> (units: Vec<u16>)
    ensures
        units@ == spec_utf16(text@),
{
    let n = text.unicode_len();
    let mut units: Vec<u16> = Vec::new();
    let mut i: usize = 0;
    while i < n
        invariant
            n == text@.len(),
            i <= n,
            units@ == spec_utf16(text@.take(i as int)),
        decreases n - i,
    {
        let c = text.get_char(i);
        let v: u32 = c as u32;
        proof {
            assert(text@.take(i + 1).drop_last() == text@.take(i as int));
            assert(text@.take(i + 1).last() == c);
        }
        if v < 0x1_0000 {
            units.push(v as u16);
        } else {
            let w: u32 = v - 0x1_0000;
            units.push((0xD800 + w / 0x400) as u16);
            units.push((0xDC00 + w % 0x400) as u16);
        }
        i += 1;
    }
    proof {
        assert(text@.take(n as int) == text@);
    }
    units
}

/// The line feed, before which the console wants a carriage return.
pub const LINE_FEED: u16 = 0x0A;

/// The carriage return.
pub const CARRIAGE_RETURN: u16 = 0x0D;

/// The number of units that the buffer for one chunk holds, the closing
/// zero included.
pub const CHUNK_CAPACITY: usize = 32;

/// The number of units from which on a chunk is handed over. It leaves
/// room for a carriage return, a line feed and the closing zero.
pub const CHUNK_FULL: usize = 30;

/// The chunks handed over so far and the units that wait in the buffer,
/// after `unit` has come in on top of `state`.
pub open spec fn spec_feed(state: (Seq<Seq<u16>>, Seq<u16>), unit: u16) -> (
    Seq<Seq<u16>>,
    Seq<u16>,
) {
    let pending = if unit == LINE_FEED {
        state.1.push(CARRIAGE_RETURN).push(unit)
    } else {
        state.1.push(unit)
    };
    if pending.len() >= CHUNK_FULL {
        (state.0.push(pending.push(0)), Seq::empty())
    } else {
        (state.0, pending)
    }
}

/// The chunks handed over and the units that wait in the buffer once all
/// of `units` have come in.
pub open spec fn spec_fed(units: Seq<u16>) -> (Seq<Seq<u16>>, Seq<u16>)
    decreases units.len(),
{
    if units.len() == 0 {
        (Seq::empty(), Seq::empty())
    } else {
        spec_feed(spec_fed(units.drop_last()), units.last())
    }
}

/// The chunks in which the console is given `units`: those that were
/// handed over on the way and, where units still wait at the end, one
/// more that holds them.
pub open spec fn spec_console_chunks(units: Seq<u16>) -> Seq<Seq<u16>> {
    let state = spec_fed(units);
    if state.1.len() > 0 {
        state.0.push(state.1.push(0))
    } else {
        state.0
    }
}

/// `units` with a carriage return put before every line feed.
pub open spec fn spec_with_carriage_returns(units: Seq<u16>) -> Seq<u16>
    decreases units.len(),
{
    if units.len() == 0 {
        Seq::empty()
    } else if units.last() == LINE_FEED {
        spec_with_carriage_returns(units.drop_last()).push(CARRIAGE_RETURN).push(LINE_FEED)
    } else {
        spec_with_carriage_returns(units.drop_last()).push(units.last())
    }
}

/// The units of all `chunks` in a row, each chunk without its last unit.
pub open spec fn spec_joined(chunks: Seq<Seq<u16>>) -> Seq<u16>
    decreases chunks.len(),
{
    if chunks.len() == 0 {
        Seq::empty()
    } else {
        spec_joined(chunks.drop_last()) + chunks.last().drop_last()
    }
}

/// Whether a chunk can be handed to the console: it holds at least one
/// unit before its closing zero and fits the buffer.
pub open spec fn chunk_fits(chunk: Seq<u16>) -> bool {
    2 <= chunk.len() <= CHUNK_CAPACITY && chunk.last() == 0
}

/// After any units the buffer holds fewer units than make a chunk full;
/// every chunk handed over fits; and the chunks and the buffer together
/// hold the units that came in, with their carriage returns.
pub proof fn lemma_fed(units: Seq<u16>)
    ensures
        spec_fed(units).1.len() < CHUNK_FULL,
        forall|i: int| 0 <= i < spec_fed(units).0.len() ==> chunk_fits(#[trigger] spec_fed(units).0[i]),
        spec_joined(spec_fed(units).0) + spec_fed(units).1 == spec_with_carriage_returns(units),
    decreases units.len(),
{
    if units.len() > 0 {
        let before = spec_fed(units.drop_last());
        let after = spec_fed(units);
        lemma_fed(units.drop_last());
        let pending = if units.last() == LINE_FEED {
            before.1.push(CARRIAGE_RETURN).push(units.last())
        } else {
            before.1.push(units.last())
        };
        assert(spec_joined(before.0) + pending =~= spec_with_carriage_returns(units));
        if pending.len() >= CHUNK_FULL {
            let chunk = pending.push(0);
            assert(after.0.drop_last() =~= before.0);
            assert(chunk.drop_last() =~= pending);
            assert(spec_joined(after.0) + after.1 =~= spec_joined(before.0) + pending);
        }
    } else {
        assert(spec_joined(spec_fed(units).0) + spec_fed(units).1 =~= Seq::<u16>::empty());
    }
}

/// Every chunk that the console is given fits its buffer and ends in a
/// zero, and the chunks in a row, without those zeros, are the units of
/// the text with a carriage return before every line feed.
pub proof fn lemma_console_chunks(units: Seq<u16>)
    ensures
        forall|i: int|
            0 <= i < spec_console_chunks(units).len() ==> chunk_fits(
                #[trigger] spec_console_chunks(units)[i],
            ),
        spec_joined(spec_console_chunks(units)) == spec_with_carriage_returns(units),
{
    lemma_fed(units);
    let state = spec_fed(units);
    if state.1.len() > 0 {
        let chunks = state.0.push(state.1.push(0));
        assert(chunks.drop_last() =~= state.0);
        assert(chunks.last().drop_last() =~= state.1);
    } else {
        assert(spec_joined(state.0) + state.1 =~= spec_joined(state.0));
    }
}

/// What the chunks hold, one sequence of units for each.
pub open spec fn spec_chunk_views(chunks: Seq<Vec<u16>>) -> Seq<Seq<u16>> {
    Seq::new(chunks.len(), |i: int| chunks[i]@)
}

/// Cuts `units` into the chunks in which the console takes them.
pub fn console_chunks(units: &[u16]) -> (chunks: Vec<Vec<u16>>)
    ensures
        spec_chunk_views(chunks@) == spec_console_chunks(units@),
{
    let mut chunks: Vec<Vec<u16>> = Vec::new();
    let mut tmp: Vec<u16> = Vec::new();
    let mut i: usize = 0;
    assert(spec_chunk_views(chunks@) =~= Seq::<Seq<u16>>::empty());
    while i < units.len()
        invariant
            i <= units.len(),
            spec_chunk_views(chunks@) == spec_fed(units@.take(i as int)).0,
            tmp@ == spec_fed(units@.take(i as int)).1,
        decreases units.len() - i,
    {
        let c = units[i];
        proof {
            assert(units@.take(i + 1).drop_last() == units@.take(i as int));
            assert(units@.take(i + 1).last() == c);
        }
        // inject CR if needed
        if c == LINE_FEED {
            tmp.push(CARRIAGE_RETURN);
        }
        tmp.push(c);
        if tmp.len() >= CHUNK_FULL {
            // null terminate the buffer and hand it over
            tmp.push(0);
            let ghost before = spec_chunk_views(chunks@);
            let ghost chunk = tmp@;
            chunks.push(tmp);
            tmp = Vec::new();
            assert(spec_chunk_views(chunks@) =~= before.push(chunk));
        }
        i += 1;
    }
    proof {
        assert(units@.take(units.len() as int) == units@);
    }
    if tmp.len() > 0 {
        tmp.push(0);
        let ghost before = spec_chunk_views(chunks@);
        let ghost chunk = tmp@;
        chunks.push(tmp);
        assert(spec_chunk_views(chunks@) =~= before.push(chunk));
    }
    chunks
}

/// The chunks to hand to the console of the registered system table, one
/// after the other, to show `string`. With no table registered there is
/// no console and nothing to hand over.
pub fn output_string(registry: &SystemTableRegistry, string: &str) -> (chunks: Vec<Vec<u16>>)
    ensures
        registry@ is None ==> chunks@.len() == 0,
        registry@ is Some ==> spec_chunk_views(chunks@) == spec_console_chunks(spec_utf16(string@)),
{
    if load_system_table(registry).is_err() {
        return Vec::new();
    }
    let units = encode_utf16(string);
    console_chunks(units.as_slice())
}

} // verus!
