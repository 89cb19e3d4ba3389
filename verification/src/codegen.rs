//! The build worker's code generation: the freestanding program that wraps
//! a user's `solve` function with the I/O glue of its problem, the manifest
//! of the temporary crate, and the board feature it is built with.

use crate::proto::Board;
use crate::text::{chars_of, find_chars, first_occurrence, first_occurrence_unique, string_of};
use vstd::prelude::*;

verus! {

/// How one scalar crosses the wire: its type and byte order.
#[derive(Debug, Clone, Copy, PartialEq, Eq, Structural)]
pub enum ScalarSpec {
    U8,
    I8,
    U16Le,
    U16Be,
    I16Le,
    I16Be,
    U32Le,
    U32Be,
    I32Le,
    I32Be,
    U64Le,
    U64Be,
    I64Le,
    I64Be,
}

/// A problem's I/O shape: one scalar in, one scalar out.
#[derive(Debug, Clone, Copy)]
pub struct IoSpec {
    pub input: ScalarSpec,
    pub output: ScalarSpec,
}

/// The Rust type of a scalar.
pub open spec fn scalar_type(s: ScalarSpec) -> Seq<char> {
    match s {
        ScalarSpec::U8 => "u8"@,
        ScalarSpec::I8 => "i8"@,
        ScalarSpec::U16Le | ScalarSpec::U16Be => "u16"@,
        ScalarSpec::I16Le | ScalarSpec::I16Be => "i16"@,
        ScalarSpec::U32Le | ScalarSpec::U32Be => "u32"@,
        ScalarSpec::I32Le | ScalarSpec::I32Be => "i32"@,
        ScalarSpec::U64Le | ScalarSpec::U64Be => "u64"@,
        ScalarSpec::I64Le | ScalarSpec::I64Be => "i64"@,
    }
}

/// The width of a scalar in bytes.
pub open spec fn width(s: ScalarSpec) -> usize {
    match s {
        ScalarSpec::U8 | ScalarSpec::I8 => 1,
        ScalarSpec::U16Le | ScalarSpec::U16Be | ScalarSpec::I16Le | ScalarSpec::I16Be => 2,
        ScalarSpec::U32Le | ScalarSpec::U32Be | ScalarSpec::I32Le | ScalarSpec::I32Be => 4,
        ScalarSpec::U64Le | ScalarSpec::U64Be | ScalarSpec::I64Le | ScalarSpec::I64Be => 8,
    }
}

/// The decimal text of a scalar's width.
pub open spec fn width_text(s: ScalarSpec) -> Seq<char> {
    match s {
        ScalarSpec::U8 | ScalarSpec::I8 => "1"@,
        ScalarSpec::U16Le | ScalarSpec::U16Be | ScalarSpec::I16Le | ScalarSpec::I16Be => "2"@,
        ScalarSpec::U32Le | ScalarSpec::U32Be | ScalarSpec::I32Le | ScalarSpec::I32Be => "4"@,
        ScalarSpec::U64Le | ScalarSpec::U64Be | ScalarSpec::I64Le | ScalarSpec::I64Be => "8"@,
    }
}

/// Whether a multi-byte scalar is little-endian.
pub open spec fn little_endian(s: ScalarSpec) -> bool {
    s == ScalarSpec::U16Le || s == ScalarSpec::U32Le || s == ScalarSpec::U64Le || s
        == ScalarSpec::I16Le || s == ScalarSpec::I32Le || s == ScalarSpec::I64Le
}

/// The expression that reads a scalar from the byte array named `buf`.
pub open spec fn decode_text(s: ScalarSpec, buf: Seq<char>) -> Seq<char> {
    if s == ScalarSpec::U8 {
        buf + "[0]"@
    } else if s == ScalarSpec::I8 {
        buf + "[0] as i8"@
    } else if little_endian(s) {
        scalar_type(s) + "::from_le_bytes("@ + buf + ")"@
    } else {
        scalar_type(s) + "::from_be_bytes("@ + buf + ")"@
    }
}

/// The expression that writes the scalar named `val` as a byte array.
pub open spec fn encode_text(s: ScalarSpec, val: Seq<char>) -> Seq<char> {
    if s == ScalarSpec::U8 || s == ScalarSpec::I8 {
        "["@ + val + " as u8]"@
    } else if little_endian(s) {
        val + ".to_le_bytes()"@
    } else {
        val + ".to_be_bytes()"@
    }
}

/// `String::push_str`: appends `t`.
#[verifier::external_body]
fn push_str(s: &mut String, t: &str)
    ensures
        final(s)@ == old(s)@ + t@,
{
    s.push_str(t);
}

impl ScalarSpec {
    /// The Rust type of the scalar.
    pub fn rust_type(self) -> (r: &'static str)
        ensures
            r@ == scalar_type(self),
    {
        match self {
            ScalarSpec::U8 => "u8",
            ScalarSpec::I8 => "i8",
            ScalarSpec::U16Le | ScalarSpec::U16Be => "u16",
            ScalarSpec::I16Le | ScalarSpec::I16Be => "i16",
            ScalarSpec::U32Le | ScalarSpec::U32Be => "u32",
            ScalarSpec::I32Le | ScalarSpec::I32Be => "i32",
            ScalarSpec::U64Le | ScalarSpec::U64Be => "u64",
            ScalarSpec::I64Le | ScalarSpec::I64Be => "i64",
        }
    }

    /// The width of the scalar in bytes.
    pub fn size(self) -> (n: usize)
        ensures
            n == width(self),
    {
        match self {
            ScalarSpec::U8 | ScalarSpec::I8 => 1,
            ScalarSpec::U16Le | ScalarSpec::U16Be | ScalarSpec::I16Le | ScalarSpec::I16Be => 2,
            ScalarSpec::U32Le | ScalarSpec::U32Be | ScalarSpec::I32Le | ScalarSpec::I32Be => 4,
            ScalarSpec::U64Le | ScalarSpec::U64Be | ScalarSpec::I64Le | ScalarSpec::I64Be => 8,
        }
    }

    /// The decimal text of the scalar's width.
    pub fn size_text(self) -> (r: &'static str)
        ensures
            r@ == width_text(self),
    {
        match self {
            ScalarSpec::U8 | ScalarSpec::I8 => "1",
            ScalarSpec::U16Le | ScalarSpec::U16Be | ScalarSpec::I16Le | ScalarSpec::I16Be => "2",
            ScalarSpec::U32Le | ScalarSpec::U32Be | ScalarSpec::I32Le | ScalarSpec::I32Be => "4",
            ScalarSpec::U64Le | ScalarSpec::U64Be | ScalarSpec::I64Le | ScalarSpec::I64Be => "8",
        }
    }

    /// Rust expression that turns the input byte array `buf` into a value
    /// of `rust_type()`.
    pub fn decode_expr(self, buf: &str) -> (r: String)
        ensures
            r@ == decode_text(self, buf@),
            (self == ScalarSpec::U16Le || self == ScalarSpec::U32Le || self == ScalarSpec::U64Le
                || self == ScalarSpec::I16Le || self == ScalarSpec::I32Le || self == ScalarSpec::I64Le) ==> r@ == scalar_type(self)
                + "::from_le_bytes("@ + buf@ + ")"@,
            (self == ScalarSpec::U16Be || self == ScalarSpec::U32Be || self == ScalarSpec::U64Be
                || self == ScalarSpec::I16Be || self == ScalarSpec::I32Be || self == ScalarSpec::I64Be) ==> r@ == scalar_type(self)
                + "::from_be_bytes("@ + buf@ + ")"@,
    {
        if self == ScalarSpec::U8 {
            let mut s = buf.to_owned();
            push_str(&mut s, "[0]");
            s
        } else if self == ScalarSpec::I8 {
            let mut s = buf.to_owned();
            push_str(&mut s, "[0] as i8");
            s
        } else if self == ScalarSpec::U16Le || self == ScalarSpec::U32Le || self == ScalarSpec::U64Le
            || self == ScalarSpec::I16Le || self == ScalarSpec::I32Le || self == ScalarSpec::I64Le {
            let mut s = self.rust_type().to_owned();
            push_str(&mut s, "::from_le_bytes(");
            push_str(&mut s, buf);
            push_str(&mut s, ")");
            s
        } else {
            let mut s = self.rust_type().to_owned();
            push_str(&mut s, "::from_be_bytes(");
            push_str(&mut s, buf);
            push_str(&mut s, ")");
            s
        }
    }

    /// Rust expression that turns the value `val` of `rust_type()` into a
    /// byte array.
    pub fn encode_expr(self, val: &str) -> (r: String)
        ensures
            r@ == encode_text(self, val@),
            (self == ScalarSpec::U16Le || self == ScalarSpec::U32Le || self == ScalarSpec::U64Le
                || self == ScalarSpec::I16Le || self == ScalarSpec::I32Le || self == ScalarSpec::I64Le) ==> r@ == val@ + ".to_le_bytes()"@,
            (self == ScalarSpec::U16Be || self == ScalarSpec::U32Be || self == ScalarSpec::U64Be
                || self == ScalarSpec::I16Be || self == ScalarSpec::I32Be || self == ScalarSpec::I64Be) ==> r@ == val@ + ".to_be_bytes()"@,
    {
        if self == ScalarSpec::U8 || self == ScalarSpec::I8 {
            let mut s = "[".to_owned();
            push_str(&mut s, val);
            push_str(&mut s, " as u8]");
            s
        } else if self == ScalarSpec::U16Le || self == ScalarSpec::U32Le || self == ScalarSpec::U64Le
            || self == ScalarSpec::I16Le || self == ScalarSpec::I32Le || self == ScalarSpec::I64Le {
            let mut s = val.to_owned();
            push_str(&mut s, ".to_le_bytes()");
            s
        } else {
            let mut s = val.to_owned();
            push_str(&mut s, ".to_be_bytes()");
            s
        }
    }
}

/// A little-endian scalar is read with `from_le_bytes` and written with
/// `to_le_bytes`, a big-endian one with `from_be_bytes` and `to_be_bytes`,
/// whatever its signedness and width.
pub proof fn byte_order_follows_the_scalar(s: ScalarSpec, buf: Seq<char>, val: Seq<char>)
    ensures
        (s == ScalarSpec::U16Le || s == ScalarSpec::U32Le || s == ScalarSpec::U64Le || s
            == ScalarSpec::I16Le || s == ScalarSpec::I32Le || s == ScalarSpec::I64Le) ==> (
        decode_text(s, buf) == scalar_type(s) + "::from_le_bytes("@ + buf + ")"@ && encode_text(
            s,
            val,
        ) == val + ".to_le_bytes()"@),
        (s == ScalarSpec::U16Be || s == ScalarSpec::U32Be || s == ScalarSpec::U64Be || s
            == ScalarSpec::I16Be || s == ScalarSpec::I32Be || s == ScalarSpec::I64Be) ==> (
        decode_text(s, buf) == scalar_type(s) + "::from_be_bytes("@ + buf + ")"@ && encode_text(
            s,
            val,
        ) == val + ".to_be_bytes()"@),
{
}

/// A signed scalar has a signed Rust type (`i..`), an unsigned one an
/// unsigned type (`u..`); the type's bits are eight times its width.
pub proof fn scalar_type_spells_sign_and_width(s: ScalarSpec)
    ensures
        scalar_type(s).len() >= 2,
        (s == ScalarSpec::I8 || s == ScalarSpec::I16Le || s == ScalarSpec::I16Be || s
            == ScalarSpec::I32Le || s == ScalarSpec::I32Be || s == ScalarSpec::I64Le || s
            == ScalarSpec::I64Be) <==> scalar_type(s)[0] == 'i',
        scalar_type(s)[0] == 'i' || scalar_type(s)[0] == 'u',
        scalar_type(s).skip(1) == (if width(s) == 1 {
            "8"@
        } else if width(s) == 2 {
            "16"@
        } else if width(s) == 4 {
            "32"@
        } else {
            "64"@
        }),
{
    reveal_strlit("u8");
    reveal_strlit("i8");
    reveal_strlit("u16");
    reveal_strlit("i16");
    reveal_strlit("u32");
    reveal_strlit("i32");
    reveal_strlit("u64");
    reveal_strlit("i64");
    reveal_strlit("8");
    reveal_strlit("16");
    reveal_strlit("32");
    reveal_strlit("64");
    assert(scalar_type(s).skip(1) =~= (if width(s) == 1 {
        "8"@
    } else if width(s) == 2 {
        "16"@
    } else if width(s) == 4 {
        "32"@
    } else {
        "64"@
    }));
}

/// The width a scalar's Rust type spells out, in bytes.
pub open spec fn type_width(t: Seq<char>) -> int {
    if t == "u8"@ || t == "i8"@ {
        1
    } else if t == "u16"@ || t == "i16"@ {
        2
    } else if t == "u32"@ || t == "i32"@ {
        4
    } else {
        8
    }
}

/// A scalar is read and written with as many bytes as its type is wide.
pub proof fn width_matches_type(s: ScalarSpec)
    ensures
        width(s) as int == type_width(scalar_type(s)),
{
    reveal_strlit("u8");
    reveal_strlit("i8");
    reveal_strlit("u16");
    reveal_strlit("i16");
    reveal_strlit("u32");
    reveal_strlit("i32");
    reveal_strlit("u64");
    reveal_strlit("i64");
    assert("u8"@.len() != "u16"@.len());
    assert("u16"@ != "u8"@ && "u16"@ != "i8"@) by {
        assert("u16"@.len() != "u8"@.len());
    }
    assert("i16"@ != "u8"@ && "i16"@ != "i8"@) by {
        assert("i16"@.len() != "u8"@.len());
    }
    assert("u32"@ != "u8"@ && "u32"@ != "i8"@ && "u32"@ != "u16"@ && "u32"@ != "i16"@) by {
        assert("u32"@[1] != "u16"@[1]);
        assert("u32"@[0] != "i16"@[0]);
    }
    assert("i32"@ != "u8"@ && "i32"@ != "i8"@ && "i32"@ != "u16"@ && "i32"@ != "i16"@) by {
        assert("i32"@[0] != "u16"@[0]);
        assert("i32"@[1] != "i16"@[1]);
    }
    assert("u64"@ != "u8"@ && "u64"@ != "i8"@ && "u64"@ != "u16"@ && "u64"@ != "i16"@ && "u64"@
        != "u32"@ && "u64"@ != "i32"@) by {
        assert("u64"@[1] != "u16"@[1]);
        assert("u64"@[0] != "i16"@[0]);
        assert("u64"@[1] != "u32"@[1]);
        assert("u64"@[0] != "i32"@[0]);
    }
    assert("i64"@ != "u8"@ && "i64"@ != "i8"@ && "i64"@ != "u16"@ && "i64"@ != "i16"@ && "i64"@
        != "u32"@ && "i64"@ != "i32"@) by {
        assert("i64"@[0] != "u16"@[0]);
        assert("i64"@[1] != "i16"@[1]);
        assert("i64"@[0] != "u32"@[0]);
        assert("i64"@[1] != "i32"@[1]);
    }
}

/// Template text, piece 0.
pub const TEMPLATE_0: &'static str = "#![no_std]\n#![no_main]\n\nextern crate userlib;\n\n// === User source (verbatim) ============================================\n\n";

/// Template text, piece 1.
pub const TEMPLATE_1: &'static str = "\n\n// === Generated entry glue ==============================================\n\nfn __exact_main() {\n    let mut __exact_input_buf = [0u8; ";

/// Template text, piece 2.
pub const TEMPLATE_2: &'static str = "];\n    let __exact_n = userlib::read(&mut __exact_input_buf);\n    if __exact_n < ";

/// Template text, piece 3.
pub const TEMPLATE_3: &'static str = " {\n        // Malformed input: too few bytes from the host. Sentinel exit\n        // code distinguishes this from a clean run.\n        userlib::exit(0xDEAD_BEEF);\n    }\n    let __exact_input: ";

/// Template text, piece 4.
pub const TEMPLATE_4: &'static str = " = ";

/// Template text, piece 5.
pub const TEMPLATE_5: &'static str = ";\n    let __exact_output: ";

/// Template text, piece 6.
pub const TEMPLATE_6: &'static str = " = solve(__exact_input);\n    let __exact_out_bytes = ";

/// Template text, piece 7.
pub const TEMPLATE_7: &'static str = ";\n    userlib::write(&__exact_out_bytes);\n}\n\nuserlib::entry!(__exact_main);\n";

/// The program a user's source is built as: the source verbatim, then an
/// entry point that reads one input of the problem's input width (exiting
/// with a sentinel code on a short read), decodes it, calls `solve`, and
/// writes the encoded result.
pub open spec fn main_rs_text(user_source: Seq<char>, spec: IoSpec) -> Seq<char> {
    TEMPLATE_0@ + user_source + TEMPLATE_1@ + width_text(spec.input) + TEMPLATE_2@ + width_text(
        spec.input,
    ) + TEMPLATE_3@ + scalar_type(spec.input) + TEMPLATE_4@ + decode_text(
        spec.input,
        "__exact_input_buf"@,
    ) + TEMPLATE_5@ + scalar_type(spec.output) + TEMPLATE_6@ + encode_text(
        spec.output,
        "__exact_output"@,
    ) + TEMPLATE_7@
}

/// Wraps the user's source in a complete freestanding program that reads
/// one input, calls `solve(...)`, and writes the encoded output.
pub fn render_main_rs(user_source: &str, spec: &IoSpec) -> (r: String)
    ensures
        r@ == main_rs_text(user_source@, *spec),
{
    let in_size = spec.input.size_text();
    let in_type = spec.input.rust_type();
    let decode = spec.input.decode_expr("__exact_input_buf");
    let out_type = spec.output.rust_type();
    let encode = spec.output.encode_expr("__exact_output");
    let mut s = TEMPLATE_0.to_owned();
    push_str(&mut s, user_source);
    push_str(&mut s, TEMPLATE_1);
    push_str(&mut s, in_size);
    push_str(&mut s, TEMPLATE_2);
    push_str(&mut s, in_size);
    push_str(&mut s, TEMPLATE_3);
    push_str(&mut s, in_type);
    push_str(&mut s, TEMPLATE_4);
    push_str(&mut s, decode.as_str());
    push_str(&mut s, TEMPLATE_5);
    push_str(&mut s, out_type);
    push_str(&mut s, TEMPLATE_6);
    push_str(&mut s, encode.as_str());
    push_str(&mut s, TEMPLATE_7);
    s
}

/// A board the user library cannot be built for yet.
#[derive(Debug, PartialEq, Eq, Structural)]
pub struct UnsupportedBoard {
    pub board: Board,
}

/// The user-library feature a board is built with; the STM32F429ZI has
/// none yet.
pub fn board_feature(board: Board) -> (r: Result<&'static str, UnsupportedBoard>)
    ensures
        board == Board::Lm3s6965evb ==> (r matches Ok(f) && f@ == "lm3s6965evb"@),
        board == Board::Lpc1768 ==> (r matches Ok(f) && f@ == "lpc1768"@),
        board == Board::Stm32f429zi ==> r == Err::<&'static str, UnsupportedBoard>(
            UnsupportedBoard { board },
        ),
{
    match board {
        Board::Lm3s6965evb => Ok("lm3s6965evb"),
        Board::Lpc1768 => Ok("lpc1768"),
        Board::Stm32f429zi => Err(UnsupportedBoard { board }),
    }
}

/// `s` with every occurrence of `pat` replaced by `with`, scanning left to
/// right without overlap (as `str::replace` does).
pub open spec fn replaced(s: Seq<char>, pat: Seq<char>, with: Seq<char>) -> Seq<char>
    recommends
        pat.len() > 0,
    decreases s.len(),
{
    if pat.len() > 0 && exists|i: int| first_occurrence(s, pat, i) {
        let i = choose|i: int| first_occurrence(s, pat, i);
        if 0 <= i && i + pat.len() <= s.len() {
            s.take(i) + with + replaced(s.skip(i + pat.len()), pat, with)
        } else {
            s
        }
    } else {
        s
    }
}

fn append_range(out: &mut Vec<char>, src: &Vec<char>, from: usize, to: usize)
    requires
        from <= to <= src@.len(),
    ensures
        final(out)@ == old(out)@ + src@.subrange(from as int, to as int),
{
    let mut k = from;
    while k < to
        invariant
            from <= k <= to,
            to <= src@.len(),
            out@ == old(out)@ + src@.subrange(from as int, k as int),
        decreases to - k,
    {
        out.push(src[k]);
        assert(src@.subrange(from as int, k + 1) == src@.subrange(from as int, k as int).push(
            src@[k as int],
        ));
        assert(old(out)@ + src@.subrange(from as int, k + 1) =~= (old(out)@ + src@.subrange(
            from as int,
            k as int,
        )).push(src@[k as int]));
        k = k + 1;
    }
}

/// Replaces every occurrence of `pat` in `s` by `with`.
pub fn replace_all(s: &str, pat: &str, with: &str) -> (r: String)
    requires
        pat@.len() > 0,
    ensures
        r@ == replaced(s@, pat@, with@),
{
    let ps = chars_of(pat);
    let ws = chars_of(with);
    let mut out: Vec<char> = Vec::new();
    let mut rest: Vec<char> = chars_of(s);
    assert(out@ + rest@ =~= s@);
    loop
        invariant_except_break
            ps@ == pat@,
            ws@ == with@,
            ps@.len() > 0,
            out@ + replaced(rest@, pat@, with@) == replaced(s@, pat@, with@),
        ensures
            out@ == replaced(s@, pat@, with@),
        decreases rest@.len(),
    {
        match find_chars(&rest, &ps) {
            None => {
                assert(!exists|i: int| first_occurrence(rest@, pat@, i));
                assert(replaced(rest@, pat@, with@) == rest@);
                let n = rest.len();
                append_range(&mut out, &rest, 0, n);
                assert(rest@.subrange(0, n as int) =~= rest@);
                break ;
            },
            Some(i) => {
                let ghost r0 = rest@;
                proof {
                    let j = choose|j: int| first_occurrence(r0, pat@, j);
                    first_occurrence_unique(r0, pat@, j, i as int);
                }
                let n = rest.len();
                let end = i + ps.len();
                append_range(&mut out, &rest, 0, i);
                append_range(&mut out, &ws, 0, ws.len());
                let mut next: Vec<char> = Vec::new();
                append_range(&mut next, &rest, end, n);
                proof {
                    assert(r0.subrange(0, i as int) =~= r0.take(i as int));
                    assert(ws@.subrange(0, ws@.len() as int) =~= ws@);
                    assert(next@ =~= r0.skip(end as int));
                }
                rest = next;
            },
        }
    }
    string_of(out.as_slice())
}

/// Puts a crate manifest together: the template with the user library's
/// path put in for each `__USERLIB_PATH__`.
pub fn render_manifest(template: &str, userlib_path: &str) -> (r: String)
    ensures
        r@ == replaced(template@, "__USERLIB_PATH__"@, userlib_path@),
{
    proof {
        reveal_strlit("__USERLIB_PATH__");
    }
    replace_all(template, "__USERLIB_PATH__", userlib_path)
}

} // verus!
