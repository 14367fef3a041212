//! Compile-time text transformer: turns a string literal into the
//! zero-terminated array of fixed-width signed integer codes that a
//! C-style string constant would occupy in memory.
//!
//! Two element widths are supported: narrow (8-bit signed, like `char*`
//! strings) and wide (16-bit signed, like `wchar_t*` strings on Windows).
//! A character whose code point exceeds the width's maximum is replaced
//! by a substitution character before encoding.

use vstd::prelude::*;

verus! {

/// Selects the element width of a transformation: narrow C strings
/// (8-bit elements, code points up to 0xFF) or wide C strings
/// (16-bit elements, code points up to 0xFFFF).
pub enum TransformType {
    CString,
    CWString,
}

impl TransformType {
    /// Largest code point this transform can represent without
    /// substituting the character.
    pub open spec fn spec_max_char(&self) -> u32 {
        match self {
            TransformType::CString => 0xff,
            TransformType::CWString => 0xffff,
        }
    }

    /// Returns max character that can fit into this transform.
    pub fn max_char(&self) -> (r: u32)
        ensures
            r == self.spec_max_char(),
    {
        match self {
            TransformType::CString => 0xff,
            TransformType::CWString => 0xffff,
        }
    }
}

/// The character a transform actually encodes: the input character
/// itself when its code point is within the transform's maximum,
/// otherwise the substitution character.
pub open spec fn substituted(c: char, default_ch: char, max_char: u32) -> char {
    if c as u32 <= max_char {
        c
    } else {
        default_ch
    }
}

/// The value of a code point's low eight bits read as a two's-complement
/// signed byte: exactly what a raw truncating cast to an 8-bit signed
/// integer produces.
pub open spec fn low_i8(cp: u32) -> i8 {
    if (cp as int) % 256 < 128 {
        ((cp as int) % 256) as i8
    } else {
        ((cp as int) % 256 - 256) as i8
    }
}

/// The value of a code point's low sixteen bits read as a two's-complement
/// signed 16-bit integer: exactly what a raw truncating cast produces.
pub open spec fn low_i16(cp: u32) -> i16 {
    if (cp as int) % 65536 < 32768 {
        ((cp as int) % 65536) as i16
    } else {
        ((cp as int) % 65536 - 65536) as i16
    }
}

/// The narrow code of one character: substitute if above 0xFF, then
/// truncate to a signed byte.
pub open spec fn narrow_code(c: char, default_ch: char) -> i8 {
    low_i8(substituted(c, default_ch, 0xff) as u32)
}

/// The wide code of one character: substitute if above 0xFFFF, then
/// truncate to a signed 16-bit value.
pub open spec fn wide_code(c: char, default_ch: char) -> i16 {
    low_i16(substituted(c, default_ch, 0xffff) as u32)
}

fn low_i8_exec(cp: u32) -> (r: i8)
    ensures
        r == low_i8(cp),
{
    let low: u32 = cp % 256;
    if low < 128 {
        low as i8
    } else {
        (low as i32 - 256) as i8
    }
}

fn low_i16_exec(cp: u32) -> (r: i16)
    ensures
        r == low_i16(cp),
{
    let low: u32 = cp % 65536;
    if low < 32768 {
        low as i16
    } else {
        (low as i32 - 65536) as i16
    }
}

fn narrow_code_exec(c: char, default_ch: char) -> (r: i8)
    ensures
        r == narrow_code(c, default_ch),
{
    let kept: char = if c as u32 <= 0xff {
        c
    } else {
        default_ch
    };
    low_i8_exec(kept as u32)
}

fn wide_code_exec(c: char, default_ch: char) -> (r: i16)
    ensures
        r == wide_code(c, default_ch),
{
    let kept: char = if c as u32 <= 0xffff {
        c
    } else {
        default_ch
    };
    low_i16_exec(kept as u32)
}

/// The narrow codes of a whole string, one per character, in order,
/// without the terminator.
pub open spec fn narrow_codes(s: Seq<char>, default_ch: char) -> Seq<i8> {
    Seq::new(s.len(), |i: int| narrow_code(s[i], default_ch))
}

/// The wide codes of a whole string, one per character, in order,
/// without the terminator.
pub open spec fn wide_codes(s: Seq<char>, default_ch: char) -> Seq<i16> {
    Seq::new(s.len(), |i: int| wide_code(s[i], default_ch))
}

/// The complete narrow C-string image of a string: its narrow codes
/// followed by the single terminating zero.
pub open spec fn narrow_c_literal(s: Seq<char>, default_ch: char) -> Seq<i8> {
    narrow_codes(s, default_ch).push(0i8)
}

/// The complete wide C-string image of a string: its wide codes
/// followed by the single terminating zero.
pub open spec fn wide_c_literal(s: Seq<char>, default_ch: char) -> Seq<i16> {
    wide_codes(s, default_ch).push(0i16)
}

/// Contains the string carried by the sole literal handed to a
/// transformation.
pub struct RealCString {
    pub string: String,
}

/// The element array a transformation produced, at the width its
/// `TransformType` selected.
pub enum CLiteral {
    CString(Vec<i8>),
    CWString(Vec<i16>),
}

/// Transforms the passed string to the needed form: one code per input
/// character in original order, characters above the transform's maximum
/// replaced by `default_ch`, and a single terminating zero appended.
pub fn transform(input: RealCString, default_ch: char, transform_type: TransformType) -> (r:
    CLiteral)
    ensures
        transform_type is CString ==> (r matches CLiteral::CString(v) && v@ == narrow_c_literal(
            input.string@,
            default_ch,
        )),
        transform_type is CWString ==> (r matches CLiteral::CWString(v) && v@ == wide_c_literal(
            input.string@,
            default_ch,
        )),
{
    let s: &str = input.string.as_str();
    let n: usize = s.unicode_len();
    match transform_type {
        TransformType::CString => {
            let mut out: Vec<i8> = Vec::new();
            let mut i: usize = 0;
            while i < n
                invariant
                    n == s@.len(),
                    i <= n,
                    out@ == narrow_codes(s@, default_ch).subrange(0, i as int),
                decreases n - i,
            {
                let c: char = s.get_char(i);
                out.push(narrow_code_exec(c, default_ch));
                i = i + 1;
                proof {
                    assert(out@ =~= narrow_codes(s@, default_ch).subrange(0, i as int));
                }
            }
            out.push(0i8);
            proof {
                assert(out@ =~= narrow_c_literal(s@, default_ch));
            }
            CLiteral::CString(out)
        },
        TransformType::CWString => {
            let mut out: Vec<i16> = Vec::new();
            let mut i: usize = 0;
            while i < n
                invariant
                    n == s@.len(),
                    i <= n,
                    out@ == wide_codes(s@, default_ch).subrange(0, i as int),
                decreases n - i,
            {
                let c: char = s.get_char(i);
                out.push(wide_code_exec(c, default_ch));
                i = i + 1;
                proof {
                    assert(out@ =~= wide_codes(s@, default_ch).subrange(0, i as int));
                }
            }
            out.push(0i16);
            proof {
                assert(out@ =~= wide_c_literal(s@, default_ch));
            }
            CLiteral::CWString(out)
        },
    }
}

/// What the sole argument token of an invocation turned out to be: a
/// string literal carrying its text, or a literal of any other kind
/// (a byte string, a number, a character, ...).
pub enum InputLit {
    Str(String),
    Other,
}

/// The two fatal, compile-time-only failures an invocation can end in.
#[derive(Debug, PartialEq, Eq, Clone, Copy)]
pub enum MacroError {
    /// No tokens were passed at all.
    NoInput,
    /// The argument was a literal of some kind other than a string literal.
    WrongLiteralKind,
}

impl RealCString {
    /// Accepts the argument only when it is a string literal; any other
    /// literal kind is a hard input error.
    pub fn parse(input: InputLit) -> (r: Result<RealCString, MacroError>)
        ensures
            match input {
                InputLit::Str(s) => r matches Ok(p) && p.string@ == s@,
                InputLit::Other => r == Err::<RealCString, MacroError>(
                    MacroError::WrongLiteralKind,
                ),
            },
    {
        match input {
            InputLit::Str(s) => Ok(RealCString { string: s }),
            InputLit::Other => Err(MacroError::WrongLiteralKind),
        }
    }
}

/// Transforms the passed string literal to the same look as a narrow C
/// string at the assembly level: the codes of its characters, truncated
/// to signed bytes, with characters above 0xFF replaced by `?`, and a
/// terminating zero byte. `None` stands for an invocation with no
/// tokens at all.
pub fn real_c_string(input: Option<InputLit>) -> (r: Result<Vec<i8>, MacroError>)
    ensures
        input is None ==> r == Err::<Vec<i8>, MacroError>(MacroError::NoInput),
        input matches Some(InputLit::Other) ==> r == Err::<Vec<i8>, MacroError>(
            MacroError::WrongLiteralKind,
        ),
        input matches Some(InputLit::Str(s)) ==> (r matches Ok(v) && v@ == narrow_c_literal(
            s@,
            '?',
        )),
{
    match input {
        None => Err(MacroError::NoInput),
        Some(lit) => match RealCString::parse(lit) {
            Err(e) => Err(e),
            Ok(parsed) => match transform(parsed, '?', TransformType::CString) {
                CLiteral::CString(v) => Ok(v),
                CLiteral::CWString(_) => {
                    proof {
                        assert(false);
                    }
                    Err(MacroError::NoInput)
                },
            },
        },
    }
}

/// Same as `real_c_string`, but for wide (`wchar_t*`-like) strings:
/// 16-bit signed elements, substitution only above 0xFFFF.
pub fn real_c_wstring(input: Option<InputLit>) -> (r: Result<Vec<i16>, MacroError>)
    ensures
        input is None ==> r == Err::<Vec<i16>, MacroError>(MacroError::NoInput),
        input matches Some(InputLit::Other) ==> r == Err::<Vec<i16>, MacroError>(
            MacroError::WrongLiteralKind,
        ),
        input matches Some(InputLit::Str(s)) ==> (r matches Ok(v) && v@ == wide_c_literal(
            s@,
            '?',
        )),
{
    match input {
        None => Err(MacroError::NoInput),
        Some(lit) => match RealCString::parse(lit) {
            Err(e) => Err(e),
            Ok(parsed) => match transform(parsed, '?', TransformType::CWString) {
                CLiteral::CWString(v) => Ok(v),
                CLiteral::CString(_) => {
                    proof {
                        assert(false);
                    }
                    Err(MacroError::NoInput)
                },
            },
        },
    }
}

/// Law: on a string whose characters all have code points at most 0xFF,
/// the narrow transform substitutes nothing. Its output has one element
/// per character plus the terminator, each non-terminator element is the
/// character's own code truncated to a signed byte, and the last element
/// is zero.
pub proof fn lemma_narrow_transform_in_range(s: Seq<char>, default_ch: char)
    requires
        forall|i: int| 0 <= i < s.len() ==> s[i] as u32 <= 0xff,
    ensures
        narrow_c_literal(s, default_ch).len() == s.len() + 1,
        forall|i: int|
            0 <= i < s.len() ==> narrow_c_literal(s, default_ch)[i] == low_i8(s[i] as u32),
        narrow_c_literal(s, default_ch).last() == 0i8,
{
}

/// Law: on a string with at least one character whose code point exceeds
/// 0xFF, the narrow transform replaces exactly those characters' slots
/// with the code of `?` (63) and leaves every in-range character's slot
/// untouched.
pub proof fn lemma_narrow_transform_substitutes(s: Seq<char>)
    requires
        exists|i: int| 0 <= i < s.len() && s[i] as u32 > 0xff,
    ensures
        forall|i: int|
            0 <= i < s.len() && s[i] as u32 > 0xff ==> narrow_c_literal(s, '?')[i] == 63i8,
        forall|i: int|
            0 <= i < s.len() && s[i] as u32 <= 0xff ==> narrow_c_literal(s, '?')[i] == low_i8(
                s[i] as u32,
            ),
{
}

/// Law: the wide transform never substitutes a character whose code point
/// is at most 0xFFFF (the whole Basic Multilingual Plane is representable);
/// only code points above 0xFFFF are replaced, and those slots carry the
/// substitution character's code.
pub proof fn lemma_wide_transform_covers_bmp(s: Seq<char>, default_ch: char)
    ensures
        forall|i: int|
            0 <= i < s.len() && s[i] as u32 <= 0xffff ==> wide_c_literal(s, default_ch)[i]
                == low_i16(s[i] as u32),
        forall|i: int|
            0 <= i < s.len() && s[i] as u32 > 0xffff ==> wide_c_literal(s, default_ch)[i]
                == low_i16(default_ch as u32),
{
}

/// Law: on a string without NUL characters, the appended terminator is
/// the unique zero of either `?`-substituting transform's output — every
/// earlier element is non-zero, because a kept character's code has a
/// non-zero low byte only taken away by NUL, and the substitution
/// character `?` encodes to 63.
pub proof fn lemma_terminator_is_unique_zero(s: Seq<char>)
    requires
        forall|i: int| 0 <= i < s.len() ==> s[i] != '\0',
    ensures
        forall|i: int| 0 <= i < s.len() ==> narrow_c_literal(s, '?')[i] != 0i8,
        narrow_c_literal(s, '?').last() == 0i8,
        forall|i: int| 0 <= i < s.len() ==> wide_c_literal(s, '?')[i] != 0i16,
        wide_c_literal(s, '?').last() == 0i16,
{
    assert forall|i: int| 0 <= i < s.len() implies narrow_c_literal(s, '?')[i] != 0i8 by {
        let kept = substituted(s[i], '?', 0xff);
        assert(1 <= kept as u32 <= 0xff);
    }
    assert forall|i: int| 0 <= i < s.len() implies wide_c_literal(s, '?')[i] != 0i16 by {
        let kept = substituted(s[i], '?', 0xffff);
        assert(1 <= kept as u32 <= 0xffff);
    }
}

/// Law: the transform is a pure function of the literal alone. Equal
/// inputs give identical outputs at either width; with the entry points'
/// contracts, which pin each result to these functions of the input, two
/// runs on the same literal return identical element sequences.
pub proof fn lemma_transform_pure(s1: Seq<char>, s2: Seq<char>, default_ch: char)
    requires
        s1 == s2,
    ensures
        narrow_c_literal(s1, default_ch) == narrow_c_literal(s2, default_ch),
        wide_c_literal(s1, default_ch) == wide_c_literal(s2, default_ch),
{
}

} // verus!
