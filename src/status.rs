use vstd::prelude::*;
use vstd::utf8::{decode_utf8, valid_utf8};

verus! {

/// Outcome codes of native calls, each with a fixed wire value.
#[derive(Debug, Clone, Copy, PartialEq, Eq, Structural)]
pub enum Code {
    Success,
    Cancelled,
    Unkown,
    InvalidArgument,
    DeadlineExceeded,
    NotFound,
    AlreadyExists,
    PermissionDenied,
    ResourceExhausted,
    FailedPrecondition,
    Aborted,
    OutOfRange,
    Unimplemented,
    Internal,
    Unavailable,
    DataLoss,
    Unauthenticated,
}

/// The wire value of each code.
pub open spec fn code_value(c: Code) -> u8 {
    match c {
        Code::Success => 0,
        Code::Cancelled => 1,
        Code::Unkown => 2,
        Code::InvalidArgument => 3,
        Code::DeadlineExceeded => 4,
        Code::NotFound => 5,
        Code::AlreadyExists => 6,
        Code::PermissionDenied => 7,
        Code::ResourceExhausted => 8,
        Code::FailedPrecondition => 9,
        Code::Aborted => 10,
        Code::OutOfRange => 11,
        Code::Unimplemented => 12,
        Code::Internal => 13,
        Code::Unavailable => 14,
        Code::DataLoss => 15,
        Code::Unauthenticated => 16,
    }
}

impl Code {
    pub fn to_u8(&self) -> (r: u8)
        ensures
            r == code_value(*self),
    {
        match self {
            Code::Success => 0,
            Code::Cancelled => 1,
            Code::Unkown => 2,
            Code::InvalidArgument => 3,
            Code::DeadlineExceeded => 4,
            Code::NotFound => 5,
            Code::AlreadyExists => 6,
            Code::PermissionDenied => 7,
            Code::ResourceExhausted => 8,
            Code::FailedPrecondition => 9,
            Code::Aborted => 10,
            Code::OutOfRange => 11,
            Code::Unimplemented => 12,
            Code::Internal => 13,
            Code::Unavailable => 14,
            Code::DataLoss => 15,
            Code::Unauthenticated => 16,
        }
    }
}

/// Distinct codes have distinct wire values.
pub proof fn lemma_code_values_distinct(a: Code, b: Code)
    ensures
        code_value(a) == code_value(b) <==> a == b,
{
}

/// Decimal digits of a natural number, most significant first.
pub open spec fn decimal(n: nat) -> Seq<char>
    decreases n,
{
    let d = seq![(('0' as u8) + (n % 10) as u8) as char];
    if n < 10 {
        d
    } else {
        decimal(n / 10) + d
    }
}

fn digit_text(d: u128) -> (r: &'static str)
    requires
        d < 10,
    ensures
        r@ == seq![(('0' as u8) + d as u8) as char],
{
    let r = if d == 0 {
        "0"
    } else if d == 1 {
        "1"
    } else if d == 2 {
        "2"
    } else if d == 3 {
        "3"
    } else if d == 4 {
        "4"
    } else if d == 5 {
        "5"
    } else if d == 6 {
        "6"
    } else if d == 7 {
        "7"
    } else if d == 8 {
        "8"
    } else {
        "9"
    };
    proof {
        reveal_strlit("0");
        reveal_strlit("1");
        reveal_strlit("2");
        reveal_strlit("3");
        reveal_strlit("4");
        reveal_strlit("5");
        reveal_strlit("6");
        reveal_strlit("7");
        reveal_strlit("8");
        reveal_strlit("9");
    }
    r
}

/// The decimal digits of `n`.
pub(crate) fn decimal_string(n: u128) -> (r: String)
    ensures
        r@ == decimal(n as nat),
    decreases n,
{
    if n < 10 {
        let mut s = String::new();
        s.append(digit_text(n));
        s
    } else {
        let mut s = decimal_string(n / 10);
        s.append(digit_text(n % 10));
        s
    }
}

/// Relies on `String::from_utf8`: the text the bytes encode, or none
/// where they are not valid UTF-8.
#[verifier::external_body]
fn utf8_text(b: Vec<u8>) -> (r: Option<String>)
    ensures
        r is Some <==> valid_utf8(b@),
        r matches Some(t) ==> t@ == decode_utf8(b@),
{
    String::from_utf8(b).ok()
}

/// The bytes before the first NUL, as a C string holds them.
pub open spec fn until_nul(b: Seq<u8>) -> Seq<u8>
    decreases b.len(),
{
    if b.len() == 0 {
        b
    } else if b[0] == 0 {
        Seq::empty()
    } else {
        seq![b[0]] + until_nul(b.drop_first())
    }
}

/// The message that native bytes give: the text before the first NUL,
/// or empty where those bytes are not valid UTF-8.
pub open spec fn message_of(b: Seq<u8>) -> Seq<char> {
    if valid_utf8(until_nul(b)) {
        decode_utf8(until_nul(b))
    } else {
        Seq::empty()
    }
}

proof fn lemma_until_nul(b: Seq<u8>, i: int)
    requires
        0 <= i <= b.len(),
        forall|j: int| 0 <= j < i ==> b[j] != 0,
        i == b.len() || b[i] == 0,
    ensures
        until_nul(b) == b.take(i),
    decreases b.len(),
{
    if b.len() > 0 && i > 0 {
        lemma_until_nul(b.drop_first(), i - 1);
        assert(seq![b[0]] + b.drop_first().take(i - 1) =~= b.take(i));
    } else if b.len() > 0 {
        assert(b.take(0) =~= Seq::<u8>::empty());
    }
}

fn bytes_until_nul(b: &[u8]) -> (r: Vec<u8>)
    ensures
        r@ == until_nul(b@),
{
    let n: usize = b.len();
    let mut v: Vec<u8> = Vec::new();
    let mut i: usize = 0;
    while i < n && b[i] != 0
        invariant
            n == b@.len(),
            i <= n,
            v@ == b@.take(i as int),
            forall|j: int| 0 <= j < i ==> b@[j] != 0,
        decreases n - i,
    {
        v.push(b[i]);
        i = i + 1;
        assert(v@ =~= b@.take(i as int));
    }
    proof {
        lemma_until_nul(b@, i as int);
    }
    v
}

/// Result descriptor of a native call: an outcome code and an optional
/// message owned by the native side.
pub struct Status {
    error_code: u8,
    message: Option<String>,
}

impl Status {
    /// The message text, empty where the native side gave none.
    pub closed spec fn message_view(&self) -> Seq<char> {
        match self.message {
            Some(m) => m@,
            None => Seq::empty(),
        }
    }

    pub closed spec fn code_view(&self) -> u8 {
        self.error_code
    }

    pub fn new() -> (r: Status)
        ensures
            r.code_view() == 0,
            r.message_view() == Seq::<char>::empty(),
    {
        Status { error_code: 0, message: None }
    }

    /// A status as the native side fills it in.
    pub fn from_native(error_code: u8, message: Option<String>) -> (r: Status)
        ensures
            r.code_view() == error_code,
            r.message_view() == (match message {
                Some(m) => m@,
                None => Seq::<char>::empty(),
            }),
    {
        Status { error_code, message }
    }

    /// A status from the native side's code and raw message bytes; the
    /// message is the text before the first NUL, or empty where there are
    /// no bytes or they are not valid UTF-8.
    pub fn from_native_bytes(error_code: u8, message: Option<&[u8]>) -> (r: Status)
        ensures
            r.code_view() == error_code,
            r.message_view() == (match message {
                Some(b) => message_of(b@),
                None => Seq::<char>::empty(),
            }),
    {
        let text = match message {
            None => None,
            Some(b) => utf8_text(bytes_until_nul(b)),
        };
        Status { error_code, message: text }
    }

    pub fn error_code(&self) -> (r: u8)
        ensures
            r == self.code_view(),
    {
        self.error_code
    }

    pub fn message(&self) -> (r: String)
        ensures
            r@ == self.message_view(),
    {
        match &self.message {
            Some(m) => m.clone(),
            None => String::new(),
        }
    }

    pub fn is_ok(&self) -> (r: bool)
        ensures
            r <==> self.code_view() == code_value(Code::Success),
    {
        self.error_code() == Code::Success.to_u8()
    }

    /// The message and the code, as `'<message> (id:<code>)'`.
    pub open spec fn text(&self) -> Seq<char> {
        seq!['\''] + self.message_view() + seq![' ', '(', 'i', 'd', ':'] + decimal(
            self.code_view() as nat,
        ) + seq![')', '\'']
    }

    pub fn to_string(&self) -> (r: String)
        ensures
            r@ == self.text(),
    {
        let mut s = String::new();
        s.append("'");
        let m = self.message();
        s.append(m.as_str());
        s.append(" (id:");
        let d = decimal_string(self.error_code as u128);
        s.append(d.as_str());
        s.append(")'");
        proof {
            reveal_strlit("'");
            reveal_strlit(" (id:");
            reveal_strlit(")'");
            assert(s@ =~= self.text());
        }
        s
    }
}


/// Native tag of single-byte unsigned elements.
pub const TAG_BYTE: u32 = 1;
/// Native tag of single-byte signed elements.
pub const TAG_CHAR: u32 = 2;
pub const TAG_SHORT: u32 = 3;
pub const TAG_INT: u32 = 4;
pub const TAG_LONG: u32 = 5;
pub const TAG_HALF: u32 = 6;
pub const TAG_FLOAT: u32 = 7;
pub const TAG_DOUBLE: u32 = 8;
pub const TAG_BOOL: u32 = 9;
pub const TAG_USHORT: u32 = 10;
pub const TAG_UINT: u32 = 11;
pub const TAG_ULONG: u32 = 12;

/// Element type of a tensor; `UnknownValue` carries a tag with no name here.
#[derive(Debug, Clone, Copy, PartialEq, Eq, Structural)]
pub enum DataType {
    UnknownValue(u32),
    Float,
    Double,
    Int32,
    UInt8,
    Int16,
    Int8,
    Int64,
    Bool,
    UInt16,
    UInt32,
    UInt64,
    Half,
}

/// The native tag of each element type.
pub open spec fn tag_of(d: DataType) -> u32 {
    match d {
        DataType::Float => TAG_FLOAT,
        DataType::Double => TAG_DOUBLE,
        DataType::Int32 => TAG_INT,
        DataType::UInt8 => TAG_BYTE,
        DataType::Int16 => TAG_SHORT,
        DataType::Int8 => TAG_CHAR,
        DataType::Int64 => TAG_LONG,
        DataType::Bool => TAG_BOOL,
        DataType::UInt16 => TAG_USHORT,
        DataType::UInt32 => TAG_UINT,
        DataType::UInt64 => TAG_ULONG,
        DataType::Half => TAG_HALF,
        DataType::UnknownValue(c) => c,
    }
}

/// A tag is known when a named element type has it.
pub open spec fn is_known_tag(v: u32) -> bool {
    1 <= v <= 12
}

/// The element type that a native tag denotes.
pub open spec fn type_of_tag(v: u32) -> DataType {
    if v == TAG_FLOAT {
        DataType::Float
    } else if v == TAG_DOUBLE {
        DataType::Double
    } else if v == TAG_INT {
        DataType::Int32
    } else if v == TAG_BYTE {
        DataType::UInt8
    } else if v == TAG_SHORT {
        DataType::Int16
    } else if v == TAG_CHAR {
        DataType::Int8
    } else if v == TAG_LONG {
        DataType::Int64
    } else if v == TAG_BOOL {
        DataType::Bool
    } else if v == TAG_USHORT {
        DataType::UInt16
    } else if v == TAG_UINT {
        DataType::UInt32
    } else if v == TAG_ULONG {
        DataType::UInt64
    } else if v == TAG_HALF {
        DataType::Half
    } else {
        DataType::UnknownValue(v)
    }
}

/// A named element type, or an unknown one whose tag no name has.
pub open spec fn is_canonical(d: DataType) -> bool {
    match d {
        DataType::UnknownValue(c) => !is_known_tag(c),
        _ => true,
    }
}

impl DataType {
    pub fn to_int(&self) -> (r: u32)
        ensures
            r == tag_of(*self),
    {
        match self {
            DataType::Float => TAG_FLOAT,
            DataType::Double => TAG_DOUBLE,
            DataType::Int32 => TAG_INT,
            DataType::UInt8 => TAG_BYTE,
            DataType::Int16 => TAG_SHORT,
            DataType::Int8 => TAG_CHAR,
            DataType::Int64 => TAG_LONG,
            DataType::Bool => TAG_BOOL,
            DataType::UInt16 => TAG_USHORT,
            DataType::UInt32 => TAG_UINT,
            DataType::UInt64 => TAG_ULONG,
            DataType::Half => TAG_HALF,
            DataType::UnknownValue(c) => *c,
        }
    }

    pub fn from_int(val: u32) -> (r: DataType)
        ensures
            r == type_of_tag(val),
            is_canonical(r),
    {
        match val {
            TAG_FLOAT => DataType::Float,
            TAG_DOUBLE => DataType::Double,
            TAG_INT => DataType::Int32,
            TAG_BYTE => DataType::UInt8,
            TAG_SHORT => DataType::Int16,
            TAG_CHAR => DataType::Int8,
            TAG_LONG => DataType::Int64,
            TAG_BOOL => DataType::Bool,
            TAG_USHORT => DataType::UInt16,
            TAG_UINT => DataType::UInt32,
            TAG_ULONG => DataType::UInt64,
            TAG_HALF => DataType::Half,
            unknown => DataType::UnknownValue(unknown),
        }
    }
}

impl Default for DataType {
    fn default() -> (r: DataType)
        ensures
            r == DataType::Float,
    {
        DataType::Float
    }
}

/// Reading a tag back gives the element type it was written from, for every
/// canonical element type; and writing the type of a tag gives the tag.
pub proof fn lemma_tag_round_trip(d: DataType, v: u32)
    ensures
        is_canonical(d) ==> type_of_tag(tag_of(d)) == d,
        tag_of(type_of_tag(v)) == v,
{
}

} // verus!
