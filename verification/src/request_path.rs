//! Which request paths stay inside the serving root.
//!
//! A request names a resource by the path of its URL.  The path is cut at
//! its slashes, every segment is percent-decoded, and the segments are
//! walked from the root: a name goes one level down, `..` goes one level
//! up, `.` and empty segments stay.  A walk that would leave the root is
//! refused.

use vstd::prelude::*;
use crate::split::{fields_of, free_of, lemma_scan_step, scan_fields};
use crate::text::rows_of;

verus! {

/// Why a request path is refused.
#[derive(Clone, Copy, Debug, PartialEq, Eq, Structural)]
pub enum PathError {
    /// The path is not absolute, or a decoded segment holds a slash or a
    /// zero byte.
    Invalid,
    /// The path climbs above the serving root.
    Forbidden,
}

/// The byte `/`, which separates the segments of a path.
pub const SLASH: u8 = 47;

/// The byte `%`, which begins an escape.
pub const PERCENT: u8 = 37;

/// The byte `.`.
pub const DOT: u8 = 46;

/// The value of a hexadecimal digit in either case, if `b` is one.
pub open spec fn hex_value(b: u8) -> Option<u8> {
    if 48 <= b <= 57 {
        Some((b - 48) as u8)
    } else if 97 <= b <= 102 {
        Some((b - 87) as u8)
    } else if 65 <= b <= 70 {
        Some((b - 55) as u8)
    } else {
        None
    }
}

/// Whether `s` begins with an escape: `%` and two hexadecimal digits.
pub open spec fn begins_with_escape(s: Seq<u8>) -> bool {
    s.len() >= 3 && s[0] == PERCENT && hex_value(s[1]) is Some && hex_value(s[2]) is Some
}

/// The byte that the escape at the beginning of `s` stands for.
pub open spec fn escaped_byte(s: Seq<u8>) -> u8 {
    (hex_value(s[1])->0 * 16 + hex_value(s[2])->0) as u8
}

/// The percent-decoding of `s`.  Every escape gives the byte it stands
/// for; a `%` that begins no escape stands for itself, as does any other
/// byte.
pub open spec fn decoded(s: Seq<u8>) -> Seq<u8>
    decreases s.len(),
{
    if s.len() == 0 {
        Seq::empty()
    } else if begins_with_escape(s) {
        seq![escaped_byte(s)] + decoded(s.skip(3))
    } else {
        seq![s[0]] + decoded(s.skip(1))
    }
}

/// The segment `.`: the directory itself.
pub open spec fn dot() -> Seq<u8> {
    seq![DOT]
}

/// The segment `..`: the directory above.
pub open spec fn dot_dot() -> Seq<u8> {
    seq![DOT, DOT]
}

/// A segment that holds a slash or a zero byte once decoded.  No file name
/// can hold either.
pub open spec fn is_malformed(segment: Seq<u8>) -> bool {
    !free_of(segment, 0u8) || !free_of(segment, SLASH)
}

/// One step of the walk.  `stack` holds the names from the root down to
/// the place reached so far.
pub open spec fn step(stack: Seq<Seq<u8>>, segment: Seq<u8>) -> Result<Seq<Seq<u8>>, PathError> {
    if segment.len() == 0 || segment == dot() {
        Ok(stack)
    } else if segment == dot_dot() {
        if stack.len() == 0 {
            Err(PathError::Forbidden)
        } else {
            Ok(stack.drop_last())
        }
    } else if is_malformed(segment) {
        Err(PathError::Invalid)
    } else {
        Ok(stack.push(segment))
    }
}

/// The walk over `segments`, begun at `stack`.  It ends at the first
/// segment that cannot be taken.
pub open spec fn walk(stack: Seq<Seq<u8>>, segments: Seq<Seq<u8>>) -> Result<
    Seq<Seq<u8>>,
    PathError,
>
    decreases segments.len(),
{
    if segments.len() == 0 {
        Ok(stack)
    } else {
        match step(stack, segments[0]) {
            Ok(next) => walk(next, segments.drop_first()),
            Err(e) => Err(e),
        }
    }
}

/// The decoded segments of a raw path.
pub open spec fn segments_of(raw: Seq<u8>) -> Seq<Seq<u8>> {
    fields_of(raw, SLASH).map_values(|s: Seq<u8>| decoded(s))
}

/// Where a raw request path leads: the names from the serving root down to
/// the resource, or the reason why the path is refused.
pub open spec fn resolved(raw: Seq<u8>) -> Result<Seq<Seq<u8>>, PathError> {
    if raw.len() == 0 || raw[0] != SLASH {
        Err(PathError::Invalid)
    } else {
        walk(Seq::empty(), segments_of(raw))
    }
}

/// The value of a hexadecimal digit, if `b` is one.
pub fn hex_digit_value(b: u8) -> (value: Option<u8>)
    ensures
        value == hex_value(b),
{
    if 48 <= b && b <= 57 {
        Some(b - 48)
    } else if 97 <= b && b <= 102 {
        Some(b - 87)
    } else if 65 <= b && b <= 70 {
        Some(b - 55)
    } else {
        None
    }
}

/// Decodes the escapes of a path segment.
pub fn percent_decode(segment: &[u8]) -> (bytes: Vec<u8>)
    ensures
        bytes@ == decoded(segment@),
{
    let mut bytes: Vec<u8> = Vec::new();
    let mut i: usize = 0;
    assert(segment@.skip(0) =~= segment@);
    while i < segment.len()
        invariant
            0 <= i <= segment.len(),
            bytes@ + decoded(segment@.skip(i as int)) == decoded(segment@),
        decreases segment.len() - i,
    {
        let mut taken: usize = 1;
        let mut byte: u8 = segment[i];
        if byte == PERCENT && segment.len() - i >= 3 {
            match (hex_digit_value(segment[i + 1]), hex_digit_value(segment[i + 2])) {
                (Some(high), Some(low)) => {
                    byte = high * 16 + low;
                    taken = 3;
                },
                _ => {},
            }
        }
        bytes.push(byte);
        assert(segment@.skip(i as int).skip(taken as int) =~= segment@.skip(i + taken));
        i += taken;
    }
    bytes
}

/// Cuts a raw path at its slashes.  The segments are not decoded.
pub fn split_path(raw: &[u8]) -> (segments: Vec<Vec<u8>>)
    ensures
        rows_of(segments@) == fields_of(raw@, SLASH),
{
    let mut done: Vec<Vec<u8>> = Vec::new();
    let mut open: Vec<u8> = Vec::new();
    let mut i: usize = 0;
    while i < raw.len()
        invariant
            0 <= i <= raw.len(),
            (rows_of(done@), open@) == scan_fields(raw@.take(i as int), SLASH),
        decreases raw.len() - i,
    {
        proof {
            lemma_scan_step(raw@, SLASH, i as int);
        }
        if raw[i] == SLASH {
            done.push(open);
            open = Vec::new();
        } else {
            open.push(raw[i]);
        }
        i += 1;
    }
    assert(raw@.take(i as int) =~= raw@);
    done.push(open);
    done
}

/// Whether a decoded segment is `.`.
pub fn is_dot(segment: &[u8]) -> (yes: bool)
    ensures
        yes == (segment@ == dot()),
{
    let yes = segment.len() == 1 && segment[0] == DOT;
    assert(yes ==> segment@ =~= dot());
    yes
}

/// Whether a decoded segment is `..`.
pub fn is_dot_dot(segment: &[u8]) -> (yes: bool)
    ensures
        yes == (segment@ == dot_dot()),
{
    let yes = segment.len() == 2 && segment[0] == DOT && segment[1] == DOT;
    assert(yes ==> segment@ =~= dot_dot());
    yes
}

/// Whether a decoded segment holds a slash or a zero byte.
pub fn holds_separator(segment: &[u8]) -> (found: bool)
    ensures
        found == is_malformed(segment@),
{
    let mut i: usize = 0;
    while i < segment.len()
        invariant
            0 <= i <= segment.len(),
            forall|k: int| 0 <= k < i ==> segment@[k] != 0u8 && segment@[k] != SLASH,
        decreases segment.len() - i,
    {
        if segment[i] == 0 || segment[i] == SLASH {
            return true;
        }
        i += 1;
    }
    false
}

/// Resolves the path of a request against the serving root.
///
/// The result holds the names from the root down to the resource.  A path
/// that does not begin with a slash, or a segment that decodes to something
/// with a slash or a zero byte in it, is `Invalid`; a `..` met at the root
/// is `Forbidden`.  The first segment that cannot be taken decides.
pub fn resolve_path(raw: &[u8]) -> (place: Result<Vec<Vec<u8>>, PathError>)
    ensures
        match place {
            Ok(names) => resolved(raw@) == Ok::<Seq<Seq<u8>>, PathError>(rows_of(names@)),
            Err(e) => resolved(raw@) == Err::<Seq<Seq<u8>>, PathError>(e),
        },
{
    if raw.len() == 0 || raw[0] != SLASH {
        return Err(PathError::Invalid);
    }
    let fields = split_path(raw);
    let ghost segments = segments_of(raw@);
    let mut stack: Vec<Vec<u8>> = Vec::new();
    let mut i: usize = 0;
    assert(segments.skip(0) =~= segments);
    assert(rows_of(stack@) =~= Seq::<Seq<u8>>::empty());
    while i < fields.len()
        invariant
            0 <= i <= fields.len(),
            raw@.len() > 0 && raw@[0] == SLASH,
            rows_of(fields@) == fields_of(raw@, SLASH),
            segments == segments_of(raw@),
            segments.len() == fields.len(),
            walk(rows_of(stack@), segments.skip(i as int)) == walk(Seq::empty(), segments),
        decreases fields.len() - i,
    {
        let segment = percent_decode(fields[i].as_slice());
        let ghost rows = rows_of(stack@);
        assert(segments.skip(i as int).drop_first() =~= segments.skip(i + 1));
        if is_dot_dot(segment.as_slice()) {
            if stack.len() == 0 {
                return Err(PathError::Forbidden);
            }
            stack.pop();
            assert(rows_of(stack@) =~= rows.drop_last());
        } else if segment.len() > 0 && !is_dot(segment.as_slice()) {
            if holds_separator(segment.as_slice()) {
                return Err(PathError::Invalid);
            }
            let ghost name = segment@;
            stack.push(segment);
            assert(rows_of(stack@) =~= rows.push(name));
        }
        i += 1;
    }
    Ok(stack)
}

} // verus!
