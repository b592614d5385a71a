//! The fixed-capacity text buffers that log lines are written into: the
//! `ArrayString<32>` of a register line and the `ArrayString<128>` of a
//! disassembly line, both of the arrayvec crate.
//!
//! Formatted text reaches such a buffer in pieces (`fmt::Write::write_str`
//! and `write_char`); a piece goes in whole or not at all, and writing stops
//! at the first piece that does not fit.
use arrayvec::ArrayString;
use core::fmt::Write;
use vstd::prelude::*;
use vstd::seq_lib::lemma_flatten_concat;

verus! {

/// The fixed-capacity string of arrayvec.
#[verifier::external_type_specification]
#[verifier::external_body]
pub struct ExArrayString<const CAP: usize>(ArrayString<CAP>);

/// The error of a formatting operation (`core::fmt::Error`).
#[verifier::external_type_specification]
#[verifier::external_body]
pub struct ExFmtError(core::fmt::Error);

/// The characters that an `ArrayString<32>` holds.
pub uninterp spec fn log_buffer_chars(s: ArrayString<32>) -> Seq<char>;

/// The number of bytes that an `ArrayString<32>` holds.
pub uninterp spec fn log_buffer_len(s: ArrayString<32>) -> nat;

/// The characters that an `ArrayString<128>` holds.
pub uninterp spec fn line_buffer_chars(s: ArrayString<128>) -> Seq<char>;

/// The number of bytes that an `ArrayString<128>` holds.
pub uninterp spec fn line_buffer_len(s: ArrayString<128>) -> nat;

/// Every character of `t` is ASCII (one byte in UTF-8).
pub open spec fn all_ascii(t: Seq<char>) -> bool {
    forall|i: int| 0 <= i < t.len() ==> (#[trigger] t[i] as u32) < 128
}

/// `ArrayString::<32>::new` of arrayvec: an empty string.
#[verifier::external_body]
pub(crate) fn log_buffer_new() -> (s: ArrayString<32>)
    ensures
        log_buffer_chars(s) == Seq::<char>::empty(),
        log_buffer_len(s) == 0,
{
    ArrayString::new()
}

/// `ArrayString::as_str` of arrayvec for an `ArrayString<32>`: the string
/// slice of the characters it holds.
#[verifier::external_body]
pub(crate) fn log_buffer_as_str(s: &ArrayString<32>) -> (t: &str)
    ensures
        t@ == log_buffer_chars(*s),
{
    s.as_str()
}

/// `fmt::Write::write_str` of arrayvec's `ArrayString<32>`, for an ASCII
/// string: it calls `try_push_str`, which copies the whole string when the
/// bytes left suffice and otherwise copies nothing and fails (turned into
/// `fmt::Error`). The string never holds more bytes than its capacity (32).
#[verifier::external_body]
pub(crate) fn log_buffer_write_str(s: &mut ArrayString<32>, t: &str) -> (r: core::fmt::Result)
    requires
        all_ascii(t@),
    ensures
        log_buffer_len(*old(s)) <= 32,
        r is Ok == (log_buffer_len(*old(s)) + t@.len() <= 32),
        r is Ok ==> log_buffer_chars(*final(s)) == log_buffer_chars(*old(s)) + t@,
        r is Ok ==> log_buffer_len(*final(s)) == log_buffer_len(*old(s)) + t@.len(),
        r is Err ==> *final(s) == *old(s),
{
    s.write_str(t)
}

/// `fmt::Write::write_char` of arrayvec's `ArrayString<128>`, for an ASCII
/// character: as for the 32-byte string, the character is appended when a
/// byte is left; otherwise the string is unchanged and the write fails.
#[verifier::external_body]
pub(crate) fn line_buffer_write_char(s: &mut ArrayString<128>, c: char) -> (r: core::fmt::Result)
    requires
        (c as u32) < 128,
    ensures
        line_buffer_len(*old(s)) <= 128,
        r is Ok == (line_buffer_len(*old(s)) < 128),
        r is Ok ==> line_buffer_chars(*final(s)) == line_buffer_chars(*old(s)).push(c),
        r is Ok ==> line_buffer_len(*final(s)) == line_buffer_len(*old(s)) + 1,
        r is Err ==> *final(s) == *old(s),
{
    s.write_char(c)
}

/// `fmt::Write::write_str` of arrayvec's `ArrayString<128>`, for an ASCII
/// string: it calls `try_push_str`, which copies the whole string when the
/// bytes left suffice and otherwise copies nothing and fails (turned into
/// `fmt::Error`). The string never holds more bytes than its capacity (128).
#[verifier::external_body]
pub(crate) fn line_buffer_write_str(s: &mut ArrayString<128>, t: &str) -> (r: core::fmt::Result)
    requires
        all_ascii(t@),
    ensures
        line_buffer_len(*old(s)) <= 128,
        r is Ok == (line_buffer_len(*old(s)) + t@.len() <= 128),
        r is Ok ==> line_buffer_chars(*final(s)) == line_buffer_chars(*old(s)) + t@,
        r is Ok ==> line_buffer_len(*final(s)) == line_buffer_len(*old(s)) + t@.len(),
        r is Err ==> *final(s) == *old(s),
{
    s.write_str(t)
}

/// The text that writing `pieces` one after the other leaves in a buffer
/// with `room` bytes free: each piece goes in whole or not at all, and writing
/// stops at the first piece that does not fit.
pub open spec fn fitting_text(room: int, pieces: Seq<Seq<char>>) -> Seq<char>
    decreases pieces.len(),
{
    if pieces.len() == 0 {
        seq![]
    } else if pieces[0].len() <= room {
        pieces[0] + fitting_text(room - pieces[0].len(), pieces.drop_first())
    } else {
        seq![]
    }
}

/// Writing `a` and then `b` leaves what writing `a` leaves, followed, when all
/// of `a` fitted, by what writing `b` leaves in the room that is left.
pub proof fn lemma_fitting_append(room: int, a: Seq<Seq<char>>, b: Seq<Seq<char>>)
    ensures
        fitting_text(room, a + b) == if a.flatten().len() <= room {
            a.flatten() + fitting_text(room - a.flatten().len(), b)
        } else {
            fitting_text(room, a)
        },
    decreases a.len(),
{
    if a.len() == 0 {
        assert(a + b =~= b);
    } else {
        assert((a + b).drop_first() =~= a.drop_first() + b);
        assert((a + b)[0] == a[0]);
        lemma_fitting_append(room - a[0].len(), a.drop_first(), b);
        if a[0].len() <= room {
            if a.flatten().len() <= room {
                assert(a[0] + (a.drop_first().flatten() + fitting_text(
                    room - a.flatten().len(),
                    b,
                )) =~= a.flatten() + fitting_text(room - a.flatten().len(), b));
            }
        }
    }
}

/// When the total length of the pieces is within the room all of them are
/// written; in any case no more than all of them.
pub proof fn lemma_fitting_all(room: int, pieces: Seq<Seq<char>>)
    ensures
        pieces.flatten().len() <= room ==> fitting_text(room, pieces) == pieces.flatten(),
        fitting_text(room, pieces).len() <= pieces.flatten().len(),
    decreases pieces.len(),
{
    if pieces.len() > 0 {
        lemma_fitting_all(room - pieces[0].len(), pieces.drop_first());
    }
}

/// The characters of each of the string slices.
pub open spec fn strs_view(pieces: Seq<&str>) -> Seq<Seq<char>> {
    pieces.map_values(|p: &str| p@)
}

/// Writes the pieces one after the other into `dst` with `write_str`,
/// stopping at the first that does not fit.
pub(crate) fn line_buffer_write_pieces(dst: &mut ArrayString<128>, pieces: &[&str]) -> (r:
    core::fmt::Result)
    requires
        pieces@.len() > 0,
        forall|i: int| 0 <= i < pieces@.len() ==> all_ascii(#[trigger] pieces@[i]@),
    ensures
        line_buffer_len(*old(dst)) <= 128,
        r is Ok <==> line_buffer_len(*old(dst)) + strs_view(pieces@).flatten().len() <= 128,
        line_buffer_chars(*final(dst)) == line_buffer_chars(*old(dst)) + fitting_text(
            128 - line_buffer_len(*old(dst)),
            strs_view(pieces@),
        ),
        line_buffer_len(*final(dst)) == line_buffer_len(*old(dst)) + fitting_text(
            128 - line_buffer_len(*old(dst)),
            strs_view(pieces@),
        ).len(),
{
    let ghost v = strs_view(pieces@);
    let ghost room: int = 128 - line_buffer_len(*dst);
    let mut i: usize = 0;
    let mut r: core::fmt::Result = Ok(());
    proof {
        assert(v.take(0) =~= Seq::<Seq<char>>::empty());
    }
    while i < pieces.len()
        invariant
            v == strs_view(pieces@),
            forall|j: int| 0 <= j < pieces@.len() ==> all_ascii(#[trigger] pieces@[j]@),
            i <= pieces@.len(),
            r is Ok,
            i > 0 ==> v.take(i as int).flatten().len() <= room,
            line_buffer_chars(*dst) == line_buffer_chars(*old(dst)) + v.take(i as int).flatten(),
            line_buffer_len(*dst) == line_buffer_len(*old(dst)) + v.take(i as int).flatten().len(),
            room == 128 - line_buffer_len(*old(dst)),
            i > 0 ==> line_buffer_len(*old(dst)) <= 128,
        decreases pieces@.len() - i,
    {
        let piece = pieces[i];
        let w = line_buffer_write_str(dst, piece);
        proof {
            assert(v[i as int] == piece@);
            assert(v.take(i + 1) =~= v.take(i as int).push(piece@));
            v.take(i as int).lemma_flatten_push(piece@);
        }
        if w.is_err() {
            proof {
                let a = v.take(i as int);
                let b = v.skip(i as int);
                assert(a + b =~= v);
                lemma_fitting_append(room, a, b);
                assert(b[0] == piece@);
                assert(fitting_text(room - a.flatten().len(), b) =~= Seq::<char>::empty());
                lemma_flatten_concat(a, b);
                b.lemma_flatten_and_flatten_alt_are_equivalent();
                b.lemma_flatten_length_ge_single_element_length(0);
                assert(line_buffer_chars(*dst) =~= line_buffer_chars(*old(dst)) + fitting_text(
                    room,
                    v,
                ));
            }
            return w;
        }
        i += 1;
    }
    proof {
        assert(v.take(pieces@.len() as int) =~= v);
        lemma_fitting_all(room, v);
    }
    r
}

/// Writes the pieces one after the other into `dst` with `write_str`,
/// stopping at the first that does not fit.
pub(crate) fn log_buffer_write_pieces(dst: &mut ArrayString<32>, pieces: &[&str]) -> (r:
    core::fmt::Result)
    requires
        pieces@.len() > 0,
        forall|i: int| 0 <= i < pieces@.len() ==> all_ascii(#[trigger] pieces@[i]@),
    ensures
        log_buffer_len(*old(dst)) <= 32,
        r is Ok <==> log_buffer_len(*old(dst)) + strs_view(pieces@).flatten().len() <= 32,
        log_buffer_chars(*final(dst)) == log_buffer_chars(*old(dst)) + fitting_text(
            32 - log_buffer_len(*old(dst)),
            strs_view(pieces@),
        ),
        log_buffer_len(*final(dst)) == log_buffer_len(*old(dst)) + fitting_text(
            32 - log_buffer_len(*old(dst)),
            strs_view(pieces@),
        ).len(),
{
    let ghost v = strs_view(pieces@);
    let ghost room: int = 32 - log_buffer_len(*dst);
    let mut i: usize = 0;
    let mut r: core::fmt::Result = Ok(());
    proof {
        assert(v.take(0) =~= Seq::<Seq<char>>::empty());
    }
    while i < pieces.len()
        invariant
            v == strs_view(pieces@),
            forall|j: int| 0 <= j < pieces@.len() ==> all_ascii(#[trigger] pieces@[j]@),
            i <= pieces@.len(),
            r is Ok,
            i > 0 ==> v.take(i as int).flatten().len() <= room,
            log_buffer_chars(*dst) == log_buffer_chars(*old(dst)) + v.take(i as int).flatten(),
            log_buffer_len(*dst) == log_buffer_len(*old(dst)) + v.take(i as int).flatten().len(),
            room == 32 - log_buffer_len(*old(dst)),
            i > 0 ==> log_buffer_len(*old(dst)) <= 32,
        decreases pieces@.len() - i,
    {
        let piece = pieces[i];
        let w = log_buffer_write_str(dst, piece);
        proof {
            assert(v[i as int] == piece@);
            assert(v.take(i + 1) =~= v.take(i as int).push(piece@));
            v.take(i as int).lemma_flatten_push(piece@);
        }
        if w.is_err() {
            proof {
                let a = v.take(i as int);
                let b = v.skip(i as int);
                assert(a + b =~= v);
                lemma_fitting_append(room, a, b);
                assert(b[0] == piece@);
                assert(fitting_text(room - a.flatten().len(), b) =~= Seq::<char>::empty());
                lemma_flatten_concat(a, b);
                b.lemma_flatten_and_flatten_alt_are_equivalent();
                b.lemma_flatten_length_ge_single_element_length(0);
                assert(log_buffer_chars(*dst) =~= log_buffer_chars(*old(dst)) + fitting_text(
                    room,
                    v,
                ));
            }
            return w;
        }
        i += 1;
    }
    proof {
        assert(v.take(pieces@.len() as int) =~= v);
        lemma_fitting_all(room, v);
    }
    r
}

} // verus!
