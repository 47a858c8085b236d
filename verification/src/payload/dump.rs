//! Transaction data for the log, as hexadecimal text.
use crate::text;
use vstd::prelude::*;
use vstd::slice::slice_subrange;

verus! {

/// Data up to this length is dumped on one line.
pub const INLINE_LIMIT_BYTES: usize = 512;

/// How many bytes a line of a longer dump shows.
pub const BYTES_PER_LINE: usize = 128;

/// How many lines a dump has at most.
pub const MAX_LINES: usize = 64;

/// Where the line ends that begins at `offset`.
pub open spec fn line_end(bytes: Seq<u8>, offset: int) -> int {
    if offset + BYTES_PER_LINE <= bytes.len() {
        offset + BYTES_PER_LINE
    } else {
        bytes.len() as int
    }
}

/// The line of a dump that begins at `offset`.
pub open spec fn dump_line(bytes: Seq<u8>, offset: int) -> Seq<char> {
    text::padded_hex(offset as nat, 4) + ": "@ + text::hex_text(
        bytes.subrange(offset, line_end(bytes, offset)),
    ) + "\n"@
}

/// The first `n` lines of a dump.
pub open spec fn dump_lines(bytes: Seq<u8>, n: nat) -> Seq<char>
    decreases n,
{
    if n == 0 {
        Seq::<char>::empty()
    } else {
        dump_lines(bytes, (n - 1) as nat) + dump_line(bytes, (n - 1) * BYTES_PER_LINE)
    }
}

/// How many lines the dump of long data has.
pub open spec fn line_count(bytes: Seq<u8>) -> nat {
    let needed = (bytes.len() + BYTES_PER_LINE - 1) / BYTES_PER_LINE as int;
    if needed <= MAX_LINES {
        needed as nat
    } else {
        MAX_LINES as nat
    }
}

/// The dump of `bytes`.
pub open spec fn dump_text(bytes: Seq<u8>) -> Seq<char> {
    if bytes.len() <= INLINE_LIMIT_BYTES {
        text::hex_text(bytes)
    } else {
        let shown = line_count(bytes) * BYTES_PER_LINE;
        let lines = dump_lines(bytes, line_count(bytes));
        if shown < bytes.len() {
            lines + "... truncated after "@ + text::decimal(shown as nat) + " bytes ("@
                + text::decimal(bytes.len()) + " total)"@
        } else {
            lines
        }
    }
}

/// `alloy_primitives::hex::encode`: two lower-case hexadecimal digits for each byte.
#[verifier::external_body]
fn hex_encode(bytes: &[u8]) -> (digits: String)
    ensures
        digits@ == text::hex_text(bytes@),
{
    alloy_primitives::hex::encode(bytes)
}

/// Shows transaction data as hexadecimal text: short data on one line, longer data
/// as lines that begin with their offset, and very long data cut off with a note.
pub fn dump_tx_data(bytes: &[u8]) -> (shown: String)
    ensures
        shown@ == dump_text(bytes@),
{
    if bytes.len() <= INLINE_LIMIT_BYTES {
        return hex_encode(bytes);
    }
    let mut out: String = String::new();
    let mut offset: usize = 0;
    let mut lines: usize = 0;
    proof {
        reveal_strlit("");
        assert(out@ =~= Seq::<char>::empty());
    }
    while offset < bytes.len() && lines < MAX_LINES
        invariant
            bytes.len() > INLINE_LIMIT_BYTES,
            lines <= MAX_LINES,
            offset <= bytes.len(),
            offset == lines * BYTES_PER_LINE || (offset == bytes.len() && (lines - 1)
                * BYTES_PER_LINE < offset < lines * BYTES_PER_LINE),
            out@ == dump_lines(bytes@, lines as nat),
        decreases bytes.len() - offset,
    {
        let end: usize = if bytes.len() - offset < BYTES_PER_LINE {
            bytes.len()
        } else {
            offset + BYTES_PER_LINE
        };
        let slice: &[u8] = slice_subrange(bytes, offset, end);
        let ghost before = out@;
        text::push_padded_hex(&mut out, offset as u64, 4);
        out.append(": ");
        let digits: String = hex_encode(slice);
        out.append(digits.as_str());
        out.append("\n");
        proof {
            assert(out@ =~= before + dump_line(bytes@, offset as int));
        }
        offset = end;
        lines = lines + 1;
    }
    proof {
        assert(lines == line_count(bytes@));
    }
    if offset < bytes.len() {
        out.append("... truncated after ");
        text::push_decimal(&mut out, offset as u64);
        out.append(" bytes (");
        text::push_decimal(&mut out, bytes.len() as u64);
        out.append(" total)");
    }
    out
}

/// However long the data is, a dump has at most 64 lines, which show at most 8192
/// bytes, and short of that it shows all of the data.
pub proof fn law_dump_is_capped(bytes: Seq<u8>)
    requires
        bytes.len() > INLINE_LIMIT_BYTES,
    ensures
        line_count(bytes) <= MAX_LINES,
        line_count(bytes) * BYTES_PER_LINE <= 8192,
        bytes.len() <= 8192 ==> bytes.len() <= line_count(bytes) * BYTES_PER_LINE,
{
}

/// Up to 512 bytes are shown whole, on one line and without an offset.
pub proof fn law_short_data_is_shown_whole(bytes: Seq<u8>)
    requires
        bytes.len() <= 512,
    ensures
        dump_text(bytes) == text::hex_text(bytes),
{
}

/// Each line of a longer dump shows the 128 bytes from its offset on, or as many as are
/// left, behind the offset in four hexadecimal digits.
pub proof fn law_lines_show_128_bytes(bytes: Seq<u8>, line: nat)
    requires
        128 * line < bytes.len(),
    ensures
        dump_lines(bytes, 0) == Seq::<char>::empty(),
        128 * line + 128 <= bytes.len() ==> dump_lines(bytes, line + 1) == dump_lines(bytes, line)
            + (text::padded_hex(128 * line, 4) + ": "@ + text::hex_text(
            bytes.subrange((128 * line) as int, (128 * line + 128) as int),
        ) + "\n"@),
        128 * line + 128 > bytes.len() ==> dump_lines(bytes, line + 1) == dump_lines(bytes, line)
            + (text::padded_hex(128 * line, 4) + ": "@ + text::hex_text(
            bytes.subrange((128 * line) as int, bytes.len() as int),
        ) + "\n"@),
{
}

/// Of more than 512 bytes, up to 8192 are shown in just as many lines as they need. Of
/// more, 64 lines are shown, and behind them how many bytes that is and how many there are.
pub proof fn law_long_data_is_shown_in_lines(bytes: Seq<u8>, lines: nat)
    requires
        bytes.len() > 512,
    ensures
        bytes.len() <= 8192 && 128 * (lines - 1) < bytes.len() <= 128 * lines ==> dump_text(bytes)
            == dump_lines(bytes, lines),
        bytes.len() > 8192 ==> dump_text(bytes) == dump_lines(bytes, 64)
            + "... truncated after "@ + text::decimal(8192) + " bytes ("@ + text::decimal(
            bytes.len(),
        ) + " total)"@,
{
}

} // verus!
