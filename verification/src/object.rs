use vstd::prelude::*;
use vstd::string::*;
use vstd::utf8::{decode_utf8, valid_utf8};

use crate::decimal::{append_decimal, lemma_decimal_reads_back, spec_decimal, spec_read_decimal};
use crate::std_text::{char_debug, char_debug_text, str_from_utf8};
use crate::types::{
    elem_size, spec_elem_size, spec_symbol_width, KB, KC, KD, KE, KF, KG, KH, KI, KJ, KM, KN, KP, KS,
    KT, KU, KV, KZ, UU,
};

verus! {

/// What the header and atom payload of a q object hold, read out as plain
/// values.
pub struct KFields {
    /// Type code: negative for an atom, 0 for a mixed list, a positive code
    /// for a simple vector, 98 for a table, 99 for a dictionary, -128 for an
    /// error.
    pub t: i8,
    /// Reference count beyond the first holder (0 when held once).
    pub r: i32,
    /// Element count of a list (the same bytes as a long atom's value).
    pub n: i64,
    /// Payload of a boolean, byte or char atom.
    pub g: u8,
    /// Payload of a short atom.
    pub h: i16,
    /// Payload of an int atom.
    pub i: i32,
    /// Payload of a long atom.
    pub j: i64,
    /// For a symbol or an error (see `carries_text`): the bytes of its C
    /// string up to the terminating NUL, or `None` for a null pointer. Unused
    /// for other types.
    pub text: Option<Vec<u8>>,
}

/// A q object as read through a handle: `None` is the null handle, which
/// every accessor reads as zero.
pub struct KSnapshot {
    pub fields: Option<KFields>,
}

/// Whether the payload of an object of type `t` is a C string (a symbol
/// atom or an error).
pub open spec fn spec_carries_text(t: i8) -> bool {
    t == -11 || t == -128
}

/// Whether the payload of an object of type `t` is a C string, so that the
/// reader fills `KFields::text`.
pub fn carries_text(t: i8) -> (b: bool)
    ensures
        b == spec_carries_text(t),
{
    t == -11 || t == -128
}

/// How the C string of a symbol or error reads as text: `<null>` for a null
/// pointer, the decoded text for valid UTF-8, `<invalid>` otherwise.
pub open spec fn spec_text(text: Option<Seq<u8>>) -> Seq<char> {
    match text {
        None => "<null>"@,
        Some(b) => if valid_utf8(b) {
            decode_utf8(b)
        } else {
            "<invalid>"@
        },
    }
}

/// The plain view of the optional C string bytes.
pub open spec fn text_view(text: Option<Vec<u8>>) -> Option<Seq<u8>> {
    match text {
        None => None,
        Some(b) => Some(b@),
    }
}

/// The description of an object with fields `f`, or `None` for a real or
/// float atom (whose value is not text here).
pub open spec fn spec_describe_fields(f: KFields) -> Option<Seq<char>> {
    let t = f.t;
    if t == -128 {
        Some("K(error: \""@ + spec_text(text_view(f.text)) + "\")"@)
    } else if t < 0 {
        if t == -1 {
            Some("K(bool: "@ + (if f.g != 0 { "true"@ } else { "false"@ }) + ")"@)
        } else if t == -4 {
            Some("K(byte: "@ + spec_decimal(f.g as int) + ")"@)
        } else if t == -5 {
            Some("K(short: "@ + spec_decimal(f.h as int) + ")"@)
        } else if t == -6 {
            Some("K(int: "@ + spec_decimal(f.i as int) + ")"@)
        } else if t == -7 {
            Some("K(long: "@ + spec_decimal(f.j as int) + ")"@)
        } else if t == -8 || t == -9 {
            None
        } else if t == -10 {
            Some("K(char: "@ + char_debug_text(f.g) + ")"@)
        } else if t == -11 {
            Some("K(symbol: `"@ + spec_text(text_view(f.text)) + ")"@)
        } else {
            Some("K(atom type="@ + spec_decimal(t as int) + ")"@)
        }
    } else if t == 0 {
        Some("K(mixed list len="@ + spec_decimal(f.n as int) + ")"@)
    } else if t == 98 {
        Some("K(table)"@)
    } else if t == 99 {
        Some("K(dict)"@)
    } else {
        Some("K(vector type="@ + spec_decimal(t as int) + " len="@ + spec_decimal(f.n as int) + ")"@)
    }
}

/// What is asked of an object: its element count (`n`) or its elements as
/// a slice.
#[derive(Copy, Clone, Debug, PartialEq, Eq)]
pub enum Access {
    Count,
    Slice,
}

/// The panic message for asking an atom (`atom`) or a table for `a`.
pub open spec fn spec_refusal_text(a: Access, atom: bool) -> Seq<char> {
    match a {
        Access::Count => if atom { "n() called on an atom"@ } else { "n() called on a table"@ },
        Access::Slice => if atom {
            "Slicing method called on an atom"@
        } else {
            "Slicing method called on a table"@
        },
    }
}

/// How an object is deep-copied.
#[derive(Copy, Clone, Debug, PartialEq, Eq)]
pub enum CopyPlan {
    /// The null handle: the copy is the null handle.
    Null,
    /// An atom: the copy is one more reference to the same object (`r1`).
    Share,
    /// A mixed list: a new mixed list of this length whose elements are new
    /// references to the source's elements, in order.
    Elements(i64),
    /// A dictionary: the keys and the values are deep-copied in turn and
    /// joined with `xD`.
    Dictionary,
    /// A table: its column dictionary is deep-copied and flipped with `xT`.
    Table,
    /// A simple vector: a new vector of this type and length (`ktn`) into
    /// which this many bytes of the source's elements are copied.
    Bytes(i8, i64, usize),
}

impl KSnapshot {
    /// The null handle.
    pub open spec fn spec_null() -> KSnapshot {
        KSnapshot { fields: None }
    }

    /// Type code; 0 for the null handle.
    pub open spec fn spec_t(&self) -> i8 {
        match self.fields {
            Some(f) => f.t,
            None => 0,
        }
    }

    /// Element count; 0 for the null handle.
    pub open spec fn spec_n(&self) -> i64 {
        match self.fields {
            Some(f) => f.n,
            None => 0,
        }
    }

    /// Reference count; 0 for the null handle.
    pub open spec fn spec_r(&self) -> i32 {
        match self.fields {
            Some(f) => f.r,
            None => 0,
        }
    }

    /// The description that `{:?}` prints, or `None` for a real or float
    /// atom.
    pub open spec fn spec_describe(&self) -> Option<Seq<char>> {
        match self.fields {
            None => Some("K(null)"@),
            Some(f) => spec_describe_fields(f),
        }
    }

    /// The inputs on which a deep copy is defined: a list has a
    /// non-negative length whose bytes fit in memory.
    pub open spec fn copy_defined(&self) -> bool {
        match self.fields {
            None => true,
            Some(f) => (f.t >= 0 && f.t != 98 && f.t != 99) ==> {
                &&& 0 <= f.n
                &&& f.n <= usize::MAX
                &&& f.t != 0 ==> f.n * spec_elem_size(f.t) <= usize::MAX
            },
        }
    }

    /// Whether the object has an element count and elements: every object
    /// but an atom or a table (the null handle counts as an empty list).
    pub open spec fn spec_counts(&self) -> bool {
        self.spec_t() >= 0 && self.spec_t() != 98
    }

    /// The plan of a deep copy.
    pub open spec fn spec_copy_plan(&self) -> CopyPlan {
        match self.fields {
            None => CopyPlan::Null,
            Some(f) => if f.t < 0 {
                CopyPlan::Share
            } else if f.t == 0 {
                CopyPlan::Elements(f.n)
            } else if f.t == 99 {
                CopyPlan::Dictionary
            } else if f.t == 98 {
                CopyPlan::Table
            } else {
                CopyPlan::Bytes(f.t, f.n, (f.n * spec_elem_size(f.t)) as usize)
            },
        }
    }

    /// The null handle.
    pub fn null() -> (k: KSnapshot)
        ensures
            k == KSnapshot::spec_null(),
    {
        KSnapshot { fields: None }
    }

    /// Whether this is the null handle.
    pub fn is_null(&self) -> (b: bool)
        ensures
            b == (self.fields is None),
    {
        self.fields.is_none()
    }

    /// Type code; 0 for the null handle.
    pub fn t(&self) -> (t: i8)
        ensures
            t == self.spec_t(),
    {
        match &self.fields {
            Some(f) => f.t,
            None => 0,
        }
    }

    /// Type code; 0 for the null handle.
    pub fn type_code(&self) -> (t: i8)
        ensures
            t == self.spec_t(),
    {
        self.t()
    }

    /// Element count; 0 for the null handle. Atoms and tables have none:
    /// asking them is refused (see `access_refusal`).
    pub fn n(&self) -> (n: i64)
        requires
            self.spec_counts(),
        ensures
            n == self.spec_n(),
    {
        match &self.fields {
            Some(f) => f.n,
            None => 0,
        }
    }

    /// Element count as a `usize` (a plain cast of the count field), which is
    /// also the length of the element slice; 0 for the null handle. It reads
    /// the field for every object, atoms and tables included.
    pub fn len(&self) -> (n: usize)
        ensures
            n == self.spec_n() as usize,
    {
        match &self.fields {
            Some(f) => f.n as usize,
            None => 0,
        }
    }

    /// Reference count; 0 for the null handle.
    pub fn r(&self) -> (r: i32)
        ensures
            r == self.spec_r(),
    {
        match &self.fields {
            Some(f) => f.r,
            None => 0,
        }
    }

    /// Payload of a boolean, byte or char atom; 0 for the null handle.
    pub fn g(&self) -> (g: u8)
        ensures
            self.fields matches Some(f) ==> g == f.g,
            self.fields is None ==> g == 0,
    {
        match &self.fields {
            Some(f) => f.g,
            None => 0,
        }
    }

    /// Payload of a short atom; 0 for the null handle.
    pub fn h(&self) -> (h: i16)
        ensures
            self.fields matches Some(f) ==> h == f.h,
            self.fields is None ==> h == 0,
    {
        match &self.fields {
            Some(f) => f.h,
            None => 0,
        }
    }

    /// Payload of an int atom; 0 for the null handle.
    pub fn i(&self) -> (i: i32)
        ensures
            self.fields matches Some(f) ==> i == f.i,
            self.fields is None ==> i == 0,
    {
        match &self.fields {
            Some(f) => f.i,
            None => 0,
        }
    }

    /// Payload of a long atom; 0 for the null handle.
    pub fn j(&self) -> (j: i64)
        ensures
            self.fields matches Some(f) ==> j == f.j,
            self.fields is None ==> j == 0,
    {
        match &self.fields {
            Some(f) => f.j,
            None => 0,
        }
    }

    /// Whether this is an error object (type -128); the null handle is not.
    pub fn is_error(&self) -> (b: bool)
        ensures
            b == (self.spec_t() == -128),
            self.fields is None ==> !b,
    {
        self.t() == -128
    }

    /// Whether copy-on-write must copy before writing: the object has other
    /// holders (a positive reference count).
    pub fn make_mut_copies(&self) -> (b: bool)
        ensures
            b == (self.spec_r() > 0),
            self.fields is None ==> !b,
    {
        self.r() > 0
    }

    /// Why the element count or the elements of this object cannot be asked
    /// for (`Some` of the panic message for an atom or a table), or `None`
    /// when they can.
    pub fn access_refusal(&self, a: Access) -> (m: Option<&'static str>)
        ensures
            m is None <==> self.spec_counts(),
            m matches Some(text) ==> text@ == spec_refusal_text(a, self.spec_t() < 0),
    {
        let t = self.t();
        if t >= 0 && t != 98 {
            None
        } else if t < 0 {
            Some(match a {
                Access::Count => "n() called on an atom",
                Access::Slice => "Slicing method called on an atom",
            })
        } else {
            Some(match a {
                Access::Count => "n() called on a table",
                Access::Slice => "Slicing method called on a table",
            })
        }
    }

    /// Whether a deep copy of this object is defined (`copy_defined`): a
    /// list's length is non-negative and its bytes fit in memory.
    pub fn can_copy(&self) -> (b: bool)
        ensures
            b == self.copy_defined(),
    {
        match &self.fields {
            None => true,
            Some(f) => {
                let t = f.t;
                if t < 0 || t == 98 || t == 99 {
                    true
                } else if f.n < 0 {
                    false
                } else if (f.n as u64) > (usize::MAX as u64) {
                    false
                } else if t == 0 {
                    true
                } else {
                    let w = elem_size(t);
                    (f.n as usize).checked_mul(w).is_some()
                }
            },
        }
    }

    /// The plan of a deep copy of this object.
    pub fn copy_plan(&self) -> (p: CopyPlan)
        requires
            self.copy_defined(),
        ensures
            p == self.spec_copy_plan(),
    {
        match &self.fields {
            None => CopyPlan::Null,
            Some(f) => {
                let t = f.t;
                if t < 0 {
                    CopyPlan::Share
                } else if t == 0 {
                    CopyPlan::Elements(f.n)
                } else if t == 99 {
                    CopyPlan::Dictionary
                } else if t == 98 {
                    CopyPlan::Table
                } else {
                    let w = elem_size(t);
                    let count = f.n as usize;
                    CopyPlan::Bytes(t, f.n, count * w)
                }
            },
        }
    }

    /// The text that `{:?}` prints for this object, or `None` for a real or
    /// float atom.
    pub fn describe(&self) -> (d: Option<String>)
        ensures
            d is Some <==> self.spec_describe() is Some,
            d matches Some(s) ==> Some(s@) == self.spec_describe(),
    {
        match &self.fields {
            None => Some(String::from_str("K(null)")),
            Some(f) => describe_fields(f),
        }
    }
}

fn append_text(s: &mut String, text: &Option<Vec<u8>>)
    ensures
        final(s)@ == old(s)@ + spec_text(text_view(*text)),
{
    match text {
        None => s.append("<null>"),
        Some(b) => match str_from_utf8(b.as_slice()) {
            Some(x) => s.append(x),
            None => s.append("<invalid>"),
        },
    }
}

fn describe_fields(f: &KFields) -> (d: Option<String>)
    ensures
        d is Some <==> spec_describe_fields(*f) is Some,
        d matches Some(s) ==> Some(s@) == spec_describe_fields(*f),
{
    let t = f.t;
    if t == -128 {
        let mut s = String::from_str("K(error: \"");
        append_text(&mut s, &f.text);
        s.append("\")");
        Some(s)
    } else if t < 0 {
        if t == -1 {
            let mut s = String::from_str("K(bool: ");
            if f.g != 0 {
                s.append("true");
            } else {
                s.append("false");
            }
            s.append(")");
            Some(s)
        } else if t == -4 {
            let mut s = String::from_str("K(byte: ");
            append_decimal(&mut s, f.g as i64);
            s.append(")");
            Some(s)
        } else if t == -5 {
            let mut s = String::from_str("K(short: ");
            append_decimal(&mut s, f.h as i64);
            s.append(")");
            Some(s)
        } else if t == -6 {
            let mut s = String::from_str("K(int: ");
            append_decimal(&mut s, f.i as i64);
            s.append(")");
            Some(s)
        } else if t == -7 {
            let mut s = String::from_str("K(long: ");
            append_decimal(&mut s, f.j);
            s.append(")");
            Some(s)
        } else if t == -8 || t == -9 {
            None
        } else if t == -10 {
            let mut s = String::from_str("K(char: ");
            let c = char_debug(f.g);
            s.append(c.as_str());
            s.append(")");
            Some(s)
        } else if t == -11 {
            let mut s = String::from_str("K(symbol: `");
            append_text(&mut s, &f.text);
            s.append(")");
            Some(s)
        } else {
            let mut s = String::from_str("K(atom type=");
            append_decimal(&mut s, t as i64);
            s.append(")");
            Some(s)
        }
    } else if t == 0 {
        let mut s = String::from_str("K(mixed list len=");
        append_decimal(&mut s, f.n);
        s.append(")");
        Some(s)
    } else if t == 98 {
        Some(String::from_str("K(table)"))
    } else if t == 99 {
        Some(String::from_str("K(dict)"))
    } else {
        let mut s = String::from_str("K(vector type=");
        append_decimal(&mut s, t as i64);
        s.append(" len=");
        append_decimal(&mut s, f.n);
        s.append(")");
        Some(s)
    }
}

/// Reading an object gives its header as it is, whatever its type: the type
/// code, the element count (a mixed list's included) and the reference count
/// are the fields themselves, and the null handle reads zero for all three.
/// So copy-on-write copies exactly when the header's reference count is
/// positive.
pub proof fn lemma_header_reads_as_is(k: KSnapshot)
    ensures
        k.fields matches Some(f) ==> k.spec_t() == f.t && k.spec_n() == f.n && k.spec_r() == f.r,
        k.fields is None ==> k.spec_t() == 0 && k.spec_n() == 0 && k.spec_r() == 0,
{
}

/// Element counts and slices are refused exactly on atoms (negative type)
/// and tables (type 98): every list, vector and dictionary, and the null
/// handle, answers. A refusal names an atom exactly when the type is
/// negative.
pub proof fn lemma_refused_exactly_atoms_and_tables(k: KSnapshot, a: Access)
    ensures
        k.fields matches Some(f) ==> (k.spec_counts() <==> !(f.t < 0 || f.t == 98)),
        k.fields is None ==> k.spec_counts(),
        k.fields matches Some(f) && f.t < 0 ==> spec_refusal_text(a, k.spec_t() < 0)
            == spec_refusal_text(a, true),
{
}

/// Element widths of the q vector types: one byte for booleans, bytes and
/// chars; two for shorts; four for ints, reals, months, dates, minutes,
/// seconds and times; eight for longs, floats, timestamps, datetimes and
/// timespans; sixteen for GUIDs; an address for symbols.
pub proof fn lemma_element_widths(t: i8)
    ensures
        t == KB || t == KG || t == KC ==> spec_elem_size(t) == 1,
        t == KH ==> spec_elem_size(t) == 2,
        t == KI || t == KE || t == KM || t == KD || t == KU || t == KV || t == KT
            ==> spec_elem_size(t) == 4,
        t == KJ || t == KF || t == KP || t == KZ || t == KN ==> spec_elem_size(t) == 8,
        t == UU ==> spec_elem_size(t) == 16,
        t == KS ==> spec_elem_size(t) == spec_symbol_width(),
{
}

/// A deep copy of a simple vector makes a new vector of the same type and
/// length and copies all of its element bytes: the length times the width
/// of one element of that type.
pub proof fn lemma_vector_copy_copies_every_byte(k: KSnapshot)
    requires
        k.copy_defined(),
        k.fields is Some,
        0 < k.fields.unwrap().t,
        k.fields.unwrap().t != 98,
        k.fields.unwrap().t != 99,
    ensures
        k.spec_copy_plan() matches CopyPlan::Bytes(t, n, b) && t == k.fields.unwrap().t && n
            == k.fields.unwrap().n && b as int == k.fields.unwrap().n * spec_elem_size(
            k.fields.unwrap().t,
        ),
{
}

/// A byte, short, int or long atom prints its own payload: its description
/// is the type's prefix, a decimal text that reads back as the payload (sign
/// included), and a closing parenthesis.
pub proof fn lemma_integer_atoms_print_their_payload(f: KFields)
    ensures
        f.t == -4 ==> exists|d: Seq<char>|
            spec_describe_fields(f) == Some("K(byte: "@ + d + ")"@) && #[trigger] spec_read_decimal(d)
                == f.g as int,
        f.t == -5 ==> exists|d: Seq<char>|
            spec_describe_fields(f) == Some("K(short: "@ + d + ")"@) && #[trigger] spec_read_decimal(d)
                == f.h as int,
        f.t == -6 ==> exists|d: Seq<char>|
            spec_describe_fields(f) == Some("K(int: "@ + d + ")"@) && #[trigger] spec_read_decimal(d)
                == f.i as int,
        f.t == -7 ==> exists|d: Seq<char>|
            spec_describe_fields(f) == Some("K(long: "@ + d + ")"@) && #[trigger] spec_read_decimal(d)
                == f.j as int,
{
    lemma_decimal_reads_back(f.g as int);
    lemma_decimal_reads_back(f.h as int);
    lemma_decimal_reads_back(f.i as int);
    lemma_decimal_reads_back(f.j as int);
    let dg = spec_decimal(f.g as int);
    let dh = spec_decimal(f.h as int);
    let di = spec_decimal(f.i as int);
    let dj = spec_decimal(f.j as int);
    assert(spec_read_decimal(dg) == f.g as int);
    assert(spec_read_decimal(dh) == f.h as int);
    assert(spec_read_decimal(di) == f.i as int);
    assert(spec_read_decimal(dj) == f.j as int);
}

} // verus!
