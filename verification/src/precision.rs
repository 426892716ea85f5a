use vstd::prelude::*;
use vstd::utf8::is_ascii_chars;

verus! {

/// Precision format being analyzed.
#[derive(Debug, Clone, Copy, PartialEq, Eq, Structural, Hash)]
pub enum Precision {
    /// Half precision (2 bytes), IEEE 754 binary16.
    F16,
    /// Bfloat16 (2 bytes), brain float.
    Bf16,
    /// Single precision (4 bytes), IEEE 754 binary32.
    F32,
    /// Double precision, IEEE 754 binary64.
    F64,
    /// 8-bit signed integer (exact within [-128, 127]).
    Int8,
    /// 16-bit signed integer (exact within [-32768, 32767]).
    Int16,
    /// 32-bit signed integer (exact).
    Int32,
}

/// Bytes per stored value of a precision.
pub open spec fn spec_bytes(p: Precision) -> nat {
    match p {
        Precision::F16 | Precision::Bf16 => 2,
        _ => 4,
    }
}

impl Precision {
    /// Bytes per stored value.
    pub fn bytes(&self) -> (n: usize)
        ensures
            n == spec_bytes(*self),
    {
        match self {
            Precision::F16 | Precision::Bf16 => 2,
            Precision::F32 | Precision::Int8 => 4,
            Precision::F64 | Precision::Int16 => 4,
            Precision::Int32 => 4,
        }
    }
}

/// The sequence of every precision, in the order the reports list them.
pub open spec fn spec_all() -> Seq<Precision> {
    seq![
        Precision::F16,
        Precision::Bf16,
        Precision::F32,
        Precision::F64,
        Precision::Int8,
        Precision::Int16,
        Precision::Int32,
    ]
}

/// Whether a precision is a floating-point format.
pub open spec fn is_float(p: Precision) -> bool {
    match p {
        Precision::F16 | Precision::Bf16 | Precision::F32 | Precision::F64 => true,
        _ => false,
    }
}

/// Storage sizes: the two 16-bit float formats take 2 bytes per value,
/// every other precision 4.
pub proof fn lemma_bytes_law(p: Precision)
    ensures
        (spec_bytes(p) == 2) <==> (p == Precision::F16 || p == Precision::Bf16),
        (spec_bytes(p) == 4) <==> !(p == Precision::F16 || p == Precision::Bf16),
{
}

/// The order in which `all` lists the precisions: the floats from the
/// narrowest, then the integers from the narrowest.
pub proof fn lemma_all_order()
    ensures
        spec_all().len() == 7,
        spec_all()[0] == Precision::F16,
        spec_all()[1] == Precision::Bf16,
        spec_all()[2] == Precision::F32,
        spec_all()[3] == Precision::F64,
        spec_all()[4] == Precision::Int8,
        spec_all()[5] == Precision::Int16,
        spec_all()[6] == Precision::Int32,
{
}

/// The display labels: `FP16`, `BF16`, `FP32`, `FP64`, `INT8`, `INT16`,
/// `INT32`; no two precisions share one.
pub proof fn lemma_labels(p: Precision, q: Precision)
    ensures
        spec_label(Precision::F16) == "FP16"@,
        spec_label(Precision::Bf16) == "BF16"@,
        spec_label(Precision::F32) == "FP32"@,
        spec_label(Precision::F64) == "FP64"@,
        spec_label(Precision::Int8) == "INT8"@,
        spec_label(Precision::Int16) == "INT16"@,
        spec_label(Precision::Int32) == "INT32"@,
        spec_label(p) == spec_label(q) ==> p == q,
{
    if spec_label(p) == spec_label(q) && p != q {
        lemma_lower_label_names_precision(p);
        lemma_lower_label_names_precision(q);
    }
}

/// Every precision is listed by `all` exactly once, and the floating-point
/// precisions are the first four.
pub proof fn lemma_all_lists_each_once()
    ensures
        spec_all().no_duplicates(),
        forall|p: Precision| #[trigger] spec_all().contains(p),
        forall|i: int| 0 <= i < spec_all().len() ==> (is_float(#[trigger] spec_all()[i]) <==> i < 4),
{
    let s = spec_all();
    assert forall|p: Precision| #[trigger] s.contains(p) by {
        match p {
            Precision::F16 => assert(s[0] == p),
            Precision::Bf16 => assert(s[1] == p),
            Precision::F32 => assert(s[2] == p),
            Precision::F64 => assert(s[3] == p),
            Precision::Int8 => assert(s[4] == p),
            Precision::Int16 => assert(s[5] == p),
            Precision::Int32 => assert(s[6] == p),
        }
    }
}

/// The display name of a precision.
pub open spec fn spec_label(p: Precision) -> Seq<char> {
    match p {
        Precision::F16 => "FP16"@,
        Precision::Bf16 => "BF16"@,
        Precision::F32 => "FP32"@,
        Precision::F64 => "FP64"@,
        Precision::Int8 => "INT8"@,
        Precision::Int16 => "INT16"@,
        Precision::Int32 => "INT32"@,
    }
}

impl Precision {
    /// The display name of the precision, such as `FP32`.
    pub fn label(&self) -> (r: &'static str)
        ensures
            r@ == spec_label(*self),
    {
        match self {
            Precision::F16 => "FP16",
            Precision::Bf16 => "BF16",
            Precision::F32 => "FP32",
            Precision::F64 => "FP64",
            Precision::Int8 => "INT8",
            Precision::Int16 => "INT16",
            Precision::Int32 => "INT32",
        }
    }

    /// The display name as an owned string (what `Display` prints).
    pub fn to_string(&self) -> (r: String)
        ensures
            r@ == spec_label(*self),
    {
        String::from_str(self.label())
    }

    /// Floating-point precisions only.
    pub fn float_only() -> (r: &'static [Precision])
        ensures
            r@ == spec_all().take(4),
            forall|p: Precision| r@.contains(p) <==> is_float(p),
    {
        let r: &'static [Precision] = &[Precision::F16, Precision::Bf16, Precision::F32, Precision::F64];
        proof {
            assert(r@ =~= spec_all().take(4));
            assert forall|p: Precision| r@.contains(p) <==> is_float(p) by {
                if is_float(p) {
                    match p {
                        Precision::F16 => assert(r@[0] == p),
                        Precision::Bf16 => assert(r@[1] == p),
                        Precision::F32 => assert(r@[2] == p),
                        Precision::F64 => assert(r@[3] == p),
                        _ => {},
                    }
                }
            }
        }
        r
    }

    /// All supported precisions.
    pub fn all() -> (r: &'static [Precision])
        ensures
            r@ == spec_all(),
    {
        let r: &'static [Precision] = &[
            Precision::F16,
            Precision::Bf16,
            Precision::F32,
            Precision::F64,
            Precision::Int8,
            Precision::Int16,
            Precision::Int32,
        ];
        r
    }
}

/// The precision that a lower-case name or alias stands for, if any.
pub open spec fn spec_precision_named(name: Seq<char>) -> Option<Precision> {
    if name == "f16"@ || name == "fp16"@ || name == "half"@ {
        Some(Precision::F16)
    } else if name == "bf16"@ || name == "bfloat16"@ {
        Some(Precision::Bf16)
    } else if name == "f32"@ || name == "fp32"@ || name == "float"@ || name == "single"@ {
        Some(Precision::F32)
    } else if name == "f64"@ || name == "fp64"@ || name == "double"@ {
        Some(Precision::F64)
    } else if name == "i8"@ || name == "int8"@ {
        Some(Precision::Int8)
    } else if name == "i16"@ || name == "int16"@ {
        Some(Precision::Int16)
    } else if name == "i32"@ || name == "int32"@ {
        Some(Precision::Int32)
    } else {
        None
    }
}

/// An ASCII letter in lower case; other characters unchanged.
pub open spec fn ascii_lower_char(c: char) -> char {
    if 'A' <= c <= 'Z' {
        ((c as int) + 32) as char
    } else {
        c
    }
}

/// A string with its ASCII letters in lower case.
pub open spec fn ascii_lower(s: Seq<char>) -> Seq<char> {
    s.map_values(|c: char| ascii_lower_char(c))
}

/// Every precision is named by its display label written in lower case:
/// `fp16`, `bf16`, `fp32`, `fp64`, `int8`, `int16`, `int32`.
pub proof fn lemma_lower_label_names_precision(p: Precision)
    ensures
        spec_precision_named(ascii_lower(spec_label(p))) == Some(p),
{
    reveal_strlit("FP16");
    reveal_strlit("BF16");
    reveal_strlit("FP32");
    reveal_strlit("FP64");
    reveal_strlit("INT8");
    reveal_strlit("INT16");
    reveal_strlit("INT32");
    reveal_strlit("f16");
    reveal_strlit("fp16");
    reveal_strlit("half");
    reveal_strlit("bf16");
    reveal_strlit("bfloat16");
    reveal_strlit("f32");
    reveal_strlit("fp32");
    reveal_strlit("float");
    reveal_strlit("single");
    reveal_strlit("f64");
    reveal_strlit("fp64");
    reveal_strlit("double");
    reveal_strlit("i8");
    reveal_strlit("int8");
    reveal_strlit("i16");
    reveal_strlit("int16");
    reveal_strlit("i32");
    reveal_strlit("int32");
    let l = ascii_lower(spec_label(p));
    match p {
        Precision::F16 => assert(l =~= "fp16"@),
        Precision::Bf16 => {
            assert(l =~= "bf16"@);
            assert(l[0] != "fp16"@[0] && l[0] != "half"@[0]);
        },
        Precision::F32 => {
            assert(l =~= "fp32"@);
            assert(l[2] != "fp16"@[2] && l[0] != "bf16"@[0]);
        },
        Precision::F64 => {
            assert(l =~= "fp64"@);
            assert(l[2] != "fp16"@[2] && l[2] != "fp32"@[2] && l[0] != "bf16"@[0]);
        },
        Precision::Int8 => {
            assert(l =~= "int8"@);
            assert(l[0] != "fp16"@[0] && l[0] != "half"@[0] && l[0] != "bf16"@[0]);
            assert(l[0] != "fp32"@[0] && l[0] != "fp64"@[0]);
        },
        Precision::Int16 => {
            assert(l =~= "int16"@);
            assert(l[0] != "bf16"@[0] && l[0] != "float"@[0] && l[0] != "single"@[0]);
            assert(l[0] != "double"@[0]);
        },
        Precision::Int32 => {
            assert(l =~= "int32"@);
            assert(l[0] != "bf16"@[0] && l[0] != "float"@[0] && l[0] != "single"@[0]);
            assert(l[0] != "double"@[0] && l[3] != "int16"@[3]);
        },
    }
}

/// Every alias names its precision: `f16`, `fp16` and `half` name half
/// precision; `bf16` and `bfloat16` bfloat16; `f32`, `fp32`, `float` and
/// `single` single precision; `f64`, `fp64` and `double` double precision;
/// `i8`/`int8`, `i16`/`int16` and `i32`/`int32` the integer precisions.
pub proof fn lemma_aliases_name_their_precision()
    ensures
        spec_precision_named("f16"@) == Some(Precision::F16),
        spec_precision_named("fp16"@) == Some(Precision::F16),
        spec_precision_named("half"@) == Some(Precision::F16),
        spec_precision_named("bf16"@) == Some(Precision::Bf16),
        spec_precision_named("bfloat16"@) == Some(Precision::Bf16),
        spec_precision_named("f32"@) == Some(Precision::F32),
        spec_precision_named("fp32"@) == Some(Precision::F32),
        spec_precision_named("float"@) == Some(Precision::F32),
        spec_precision_named("single"@) == Some(Precision::F32),
        spec_precision_named("f64"@) == Some(Precision::F64),
        spec_precision_named("fp64"@) == Some(Precision::F64),
        spec_precision_named("double"@) == Some(Precision::F64),
        spec_precision_named("i8"@) == Some(Precision::Int8),
        spec_precision_named("int8"@) == Some(Precision::Int8),
        spec_precision_named("i16"@) == Some(Precision::Int16),
        spec_precision_named("int16"@) == Some(Precision::Int16),
        spec_precision_named("i32"@) == Some(Precision::Int32),
        spec_precision_named("int32"@) == Some(Precision::Int32),
{
    reveal_strlit("f16");
    reveal_strlit("fp16");
    reveal_strlit("half");
    reveal_strlit("bf16");
    reveal_strlit("bfloat16");
    reveal_strlit("f32");
    reveal_strlit("fp32");
    reveal_strlit("float");
    reveal_strlit("single");
    reveal_strlit("f64");
    reveal_strlit("fp64");
    reveal_strlit("double");
    reveal_strlit("i8");
    reveal_strlit("int8");
    reveal_strlit("i16");
    reveal_strlit("int16");
    reveal_strlit("i32");
    reveal_strlit("int32");
    assert("bf16"@[0] != "fp16"@[0] && "bf16"@[0] != "half"@[0]);
    assert("bfloat16"@.len() == 8);
    assert("f32"@[1] != "f16"@[1]);
    assert("fp32"@[2] != "fp16"@[2]);
    assert("float"@.len() == 5 && "single"@.len() == 6);
    assert("f64"@[1] != "f16"@[1] && "f64"@[1] != "f32"@[1]);
    assert("fp64"@[2] != "fp16"@[2] && "fp64"@[2] != "fp32"@[2]);
    assert("fp64"@[0] != "half"@[0] && "fp64"@[0] != "bf16"@[0]);
    assert("double"@[0] != "single"@[0]);
    assert("i8"@.len() == 2);
    assert("int8"@[0] != "fp16"@[0] && "int8"@[0] != "half"@[0] && "int8"@[0] != "bf16"@[0]);
    assert("int8"@[0] != "fp32"@[0] && "int8"@[0] != "fp64"@[0]);
    assert("i16"@[0] != "f16"@[0] && "i16"@[0] != "f32"@[0] && "i16"@[0] != "f64"@[0]);
    assert("int16"@[0] != "float"@[0]);
    assert("i32"@[0] != "f16"@[0] && "i32"@[0] != "f32"@[0] && "i32"@[0] != "f64"@[0]);
    assert("i32"@[1] != "i16"@[1]);
    assert("int32"@[0] != "float"@[0] && "int32"@[3] != "int16"@[3]);
}

/// A name that is no alias names nothing.
pub proof fn lemma_unknown_names_nothing(name: Seq<char>)
    requires
        name != "f16"@,
        name != "fp16"@,
        name != "half"@,
        name != "bf16"@,
        name != "bfloat16"@,
        name != "f32"@,
        name != "fp32"@,
        name != "float"@,
        name != "single"@,
        name != "f64"@,
        name != "fp64"@,
        name != "double"@,
        name != "i8"@,
        name != "int8"@,
        name != "i16"@,
        name != "int16"@,
        name != "i32"@,
        name != "int32"@,
    ensures
        spec_precision_named(name) is None,
{
}

/// What `str::to_lowercase` returns for a string: its lower-case
/// equivalent as the Unicode `Lowercase` property defines it.
pub uninterp spec fn lowercase(s: Seq<char>) -> Seq<char>;

/// Calls `str::to_lowercase`. The contract claims that the result depends
/// on the characters of the argument alone, and that on an ASCII string it
/// lower-cases the ASCII letters `A`-`Z` and leaves every other character as
/// it is (std documents `to_lowercase` as lower-casing ASCII characters as
/// well as non-ASCII ones). What it does to non-ASCII characters is left to
/// the name `lowercase`.
#[verifier::external_body]
fn to_lowercase(s: &str) -> (r: String)
    ensures
        r@ == lowercase(s@),
        is_ascii_chars(s@) ==> r@ == ascii_lower(s@),
{
    s.to_lowercase()
}

/// Whether two strings hold the same characters.
pub fn same_text(a: &str, b: &str) -> (r: bool)
    ensures
        r == (a@ == b@),
{
    let n = a.unicode_len();
    if n != b.unicode_len() {
        return false;
    }
    let mut i: usize = 0;
    while i < n
        invariant
            n == a@.len(),
            n == b@.len(),
            i <= n,
            forall|j: int| 0 <= j < i ==> a@[j] == b@[j],
        decreases n - i,
    {
        if a.get_char(i) != b.get_char(i) {
            return false;
        }
        i += 1;
    }
    assert(a@ =~= b@);
    true
}

/// The precision that a lower-case name or alias stands for:
/// `f16`/`fp16`/`half`, `bf16`/`bfloat16`, `f32`/`fp32`/`float`/`single`,
/// `f64`/`fp64`/`double`, `i8`/`int8`, `i16`/`int16`, `i32`/`int32`.
pub fn precision_named(name: &str) -> (r: Option<Precision>)
    ensures
        r == spec_precision_named(name@),
{
    if same_text(name, "f16") || same_text(name, "fp16") || same_text(name, "half") {
        Some(Precision::F16)
    } else if same_text(name, "bf16") || same_text(name, "bfloat16") {
        Some(Precision::Bf16)
    } else if same_text(name, "f32") || same_text(name, "fp32") || same_text(name, "float")
        || same_text(name, "single") {
        Some(Precision::F32)
    } else if same_text(name, "f64") || same_text(name, "fp64") || same_text(name, "double") {
        Some(Precision::F64)
    } else if same_text(name, "i8") || same_text(name, "int8") {
        Some(Precision::Int8)
    } else if same_text(name, "i16") || same_text(name, "int16") {
        Some(Precision::Int16)
    } else if same_text(name, "i32") || same_text(name, "int32") {
        Some(Precision::Int32)
    } else {
        None
    }
}

/// Parses a precision name as given on a command line: the name is
/// lower-cased first, so for an ASCII name the case of its letters does not
/// matter (`FP32`, `Fp32` and `fp32` all name single precision).
pub fn parse_precision(s: &str) -> (r: Option<Precision>)
    ensures
        r == spec_precision_named(lowercase(s@)),
        is_ascii_chars(s@) ==> r == spec_precision_named(ascii_lower(s@)),
        forall|p: Precision| s@ == spec_label(p) ==> r == Some(p),
{
    let lower = to_lowercase(s);
    let r = precision_named(lower.as_str());
    proof {
        assert forall|p: Precision| s@ == spec_label(p) implies r == Some(p) by {
            lemma_label_is_ascii(p);
            lemma_lower_label_names_precision(p);
        }
    }
    r
}

/// Every display label is plain ASCII.
pub proof fn lemma_label_is_ascii(p: Precision)
    ensures
        is_ascii_chars(spec_label(p)),
{
    reveal_strlit("FP16");
    reveal_strlit("BF16");
    reveal_strlit("FP32");
    reveal_strlit("FP64");
    reveal_strlit("INT8");
    reveal_strlit("INT16");
    reveal_strlit("INT32");
}

} // verus!
