//! Portable serial port settings: the enumerated configuration values and
//! their conversions from and to primitive types.

use vstd::prelude::*;

verus! {

use vstd::std_specs::convert::FromSpec;

/// Description of the values accepted when converting to [`CharSize`].
pub const CHAR_SIZE_EXPECTED: &'static str = "the number 5, 6, 7 or 8";

/// Description of the values accepted when converting to [`StopBits`].
pub const STOP_BITS_EXPECTED: &'static str = "the number 1 or 2";

/// Description of the values accepted when converting to [`Parity`].
pub const PARITY_EXPECTED: &'static str = "the string \"none\", \"odd\" or \"even\"";

/// Description of the values accepted when converting to [`FlowControl`].
pub const FLOW_CONTROL_EXPECTED: &'static str = "the string \"none\", \"xon/xoff\" or \"rts/cts\"";

/// Error that can occur when converting from a primitive type.
pub struct TryFromError<Raw> {
    /// The unexpected value.
    unexpected: Raw,

    /// A description of what was expected instead.
    expected: &'static str,
}

impl<Raw> TryFromError<Raw> {
    /// The error for an unexpected value, with a description of what was
    /// expected instead.
    pub closed spec fn spec_new(unexpected: Raw, expected: &'static str) -> TryFromError<Raw> {
        TryFromError { unexpected, expected }
    }

    /// The unexpected value that caused the error.
    pub closed spec fn spec_unexpected(self) -> Raw {
        self.unexpected
    }

    /// The description of what was expected instead.
    pub closed spec fn spec_expected(self) -> &'static str {
        self.expected
    }

    /// Convert the error to one holding a widened copy of the unexpected value.
    pub fn convert<U: From<Raw>>(self) -> (r: TryFromError<U>)
        ensures
            U::obeys_from_spec() ==> r == (TryFromError::spec_new(
                U::from_spec(self.spec_unexpected()),
                self.spec_expected(),
            )),
    {
        TryFromError {
            unexpected: U::from(self.unexpected),
            expected: self.expected,
        }
    }
}

impl<Raw: core::fmt::Debug> TryFromError<Raw> {
    /// Render the error as text.
    ///
    /// Relies on `format!` with core's `Debug` rendering of the raw value.
    #[verifier::external_body]
    pub fn message(&self) -> String {
        format!("invalid value: {:?}, expected {}", self.unexpected, self.expected)
    }
}

/// The number of bits per character for a serial port.
#[derive(Debug, Copy, Clone, Eq, PartialEq, Structural)]
pub enum CharSize {
    /// Characters of 5 bits.
    Bits5,
    /// Characters of 6 bits.
    Bits6,
    /// Characters of 7 bits.
    Bits7,
    /// Characters of 8 bits.
    Bits8,
}

impl CharSize {
    /// The number of data bits per character, as a mathematical value.
    pub open spec fn spec_as_u8(self) -> u8 {
        match self {
            CharSize::Bits5 => 5,
            CharSize::Bits6 => 6,
            CharSize::Bits7 => 7,
            CharSize::Bits8 => 8,
        }
    }

    /// The character size denoted by a number of data bits, if any.
    pub open spec fn spec_from_int(v: int) -> Option<CharSize> {
        if v == 5 {
            Some(CharSize::Bits5)
        } else if v == 6 {
            Some(CharSize::Bits6)
        } else if v == 7 {
            Some(CharSize::Bits7)
        } else if v == 8 {
            Some(CharSize::Bits8)
        } else {
            None
        }
    }

    /// Get the number of data bits per character as a [`u8`].
    pub fn as_u8(self) -> (r: u8)
        ensures
            r == self.spec_as_u8(),
    {
        match self {
            CharSize::Bits5 => 5,
            CharSize::Bits6 => 6,
            CharSize::Bits7 => 7,
            CharSize::Bits8 => 8,
        }
    }

    /// Create a [`TryFromError`] for an unexpected value.
    fn unexpected<T>(unexpected: T) -> (r: TryFromError<T>)
        ensures
            r == TryFromError::spec_new(unexpected, CHAR_SIZE_EXPECTED),
    {
        TryFromError {
            unexpected,
            expected: CHAR_SIZE_EXPECTED,
        }
    }
}

impl TryFrom<u8> for CharSize {
    type Error = TryFromError<u8>;

    fn try_from(value: u8) -> (r: Result<CharSize, TryFromError<u8>>) {
        match value {
            5 => Ok(CharSize::Bits5),
            6 => Ok(CharSize::Bits6),
            7 => Ok(CharSize::Bits7),
            8 => Ok(CharSize::Bits8),
            x => Err(CharSize::unexpected(x)),
        }
    }
}

impl vstd::std_specs::convert::TryFromSpecImpl<u8> for CharSize {
    open spec fn obeys_try_from_spec() -> bool {
        true
    }

    open spec fn try_from_spec(v: u8) -> Result<CharSize, TryFromError<u8>> {
        match CharSize::spec_from_int(v as int) {
            Some(c) => Ok(c),
            None => Err(TryFromError::spec_new(v, CHAR_SIZE_EXPECTED)),
        }
    }
}


impl TryFrom<i8> for CharSize {
    type Error = TryFromError<i8>;

    fn try_from(value: i8) -> (r: Result<CharSize, TryFromError<i8>>) {
        let narrowed = match u8::try_from(value) {
            Ok(n) => n,
            Err(_) => {
                return Err(CharSize::unexpected(value));
            },
        };
        match CharSize::try_from(narrowed) {
            Ok(v) => Ok(v),
            Err(_) => Err(CharSize::unexpected(value)),
        }
    }
}

impl vstd::std_specs::convert::TryFromSpecImpl<i8> for CharSize {
    open spec fn obeys_try_from_spec() -> bool {
        true
    }

    open spec fn try_from_spec(v: i8) -> Result<CharSize, TryFromError<i8>> {
        match CharSize::spec_from_int(v as int) {
            Some(x) => Ok(x),
            None => Err(TryFromError::spec_new(v, CHAR_SIZE_EXPECTED)),
        }
    }
}

impl TryFrom<u16> for CharSize {
    type Error = TryFromError<u16>;

    fn try_from(value: u16) -> (r: Result<CharSize, TryFromError<u16>>) {
        let narrowed = match u8::try_from(value) {
            Ok(n) => n,
            Err(_) => {
                return Err(CharSize::unexpected(value));
            },
        };
        match CharSize::try_from(narrowed) {
            Ok(v) => Ok(v),
            Err(_) => Err(CharSize::unexpected(value)),
        }
    }
}

impl vstd::std_specs::convert::TryFromSpecImpl<u16> for CharSize {
    open spec fn obeys_try_from_spec() -> bool {
        true
    }

    open spec fn try_from_spec(v: u16) -> Result<CharSize, TryFromError<u16>> {
        match CharSize::spec_from_int(v as int) {
            Some(x) => Ok(x),
            None => Err(TryFromError::spec_new(v, CHAR_SIZE_EXPECTED)),
        }
    }
}

impl TryFrom<i16> for CharSize {
    type Error = TryFromError<i16>;

    fn try_from(value: i16) -> (r: Result<CharSize, TryFromError<i16>>) {
        let narrowed = match u8::try_from(value) {
            Ok(n) => n,
            Err(_) => {
                return Err(CharSize::unexpected(value));
            },
        };
        match CharSize::try_from(narrowed) {
            Ok(v) => Ok(v),
            Err(_) => Err(CharSize::unexpected(value)),
        }
    }
}

impl vstd::std_specs::convert::TryFromSpecImpl<i16> for CharSize {
    open spec fn obeys_try_from_spec() -> bool {
        true
    }

    open spec fn try_from_spec(v: i16) -> Result<CharSize, TryFromError<i16>> {
        match CharSize::spec_from_int(v as int) {
            Some(x) => Ok(x),
            None => Err(TryFromError::spec_new(v, CHAR_SIZE_EXPECTED)),
        }
    }
}

impl TryFrom<u32> for CharSize {
    type Error = TryFromError<u32>;

    fn try_from(value: u32) -> (r: Result<CharSize, TryFromError<u32>>) {
        let narrowed = match u8::try_from(value) {
            Ok(n) => n,
            Err(_) => {
                return Err(CharSize::unexpected(value));
            },
        };
        match CharSize::try_from(narrowed) {
            Ok(v) => Ok(v),
            Err(_) => Err(CharSize::unexpected(value)),
        }
    }
}

impl vstd::std_specs::convert::TryFromSpecImpl<u32> for CharSize {
    open spec fn obeys_try_from_spec() -> bool {
        true
    }

    open spec fn try_from_spec(v: u32) -> Result<CharSize, TryFromError<u32>> {
        match CharSize::spec_from_int(v as int) {
            Some(x) => Ok(x),
            None => Err(TryFromError::spec_new(v, CHAR_SIZE_EXPECTED)),
        }
    }
}

impl TryFrom<i32> for CharSize {
    type Error = TryFromError<i32>;

    fn try_from(value: i32) -> (r: Result<CharSize, TryFromError<i32>>) {
        let narrowed = match u8::try_from(value) {
            Ok(n) => n,
            Err(_) => {
                return Err(CharSize::unexpected(value));
            },
        };
        match CharSize::try_from(narrowed) {
            Ok(v) => Ok(v),
            Err(_) => Err(CharSize::unexpected(value)),
        }
    }
}

impl vstd::std_specs::convert::TryFromSpecImpl<i32> for CharSize {
    open spec fn obeys_try_from_spec() -> bool {
        true
    }

    open spec fn try_from_spec(v: i32) -> Result<CharSize, TryFromError<i32>> {
        match CharSize::spec_from_int(v as int) {
            Some(x) => Ok(x),
            None => Err(TryFromError::spec_new(v, CHAR_SIZE_EXPECTED)),
        }
    }
}

impl TryFrom<u64> for CharSize {
    type Error = TryFromError<u64>;

    fn try_from(value: u64) -> (r: Result<CharSize, TryFromError<u64>>) {
        let narrowed = match u8::try_from(value) {
            Ok(n) => n,
            Err(_) => {
                return Err(CharSize::unexpected(value));
            },
        };
        match CharSize::try_from(narrowed) {
            Ok(v) => Ok(v),
            Err(_) => Err(CharSize::unexpected(value)),
        }
    }
}

impl vstd::std_specs::convert::TryFromSpecImpl<u64> for CharSize {
    open spec fn obeys_try_from_spec() -> bool {
        true
    }

    open spec fn try_from_spec(v: u64) -> Result<CharSize, TryFromError<u64>> {
        match CharSize::spec_from_int(v as int) {
            Some(x) => Ok(x),
            None => Err(TryFromError::spec_new(v, CHAR_SIZE_EXPECTED)),
        }
    }
}

impl TryFrom<i64> for CharSize {
    type Error = TryFromError<i64>;

    fn try_from(value: i64) -> (r: Result<CharSize, TryFromError<i64>>) {
        let narrowed = match u8::try_from(value) {
            Ok(n) => n,
            Err(_) => {
                return Err(CharSize::unexpected(value));
            },
        };
        match CharSize::try_from(narrowed) {
            Ok(v) => Ok(v),
            Err(_) => Err(CharSize::unexpected(value)),
        }
    }
}

impl vstd::std_specs::convert::TryFromSpecImpl<i64> for CharSize {
    open spec fn obeys_try_from_spec() -> bool {
        true
    }

    open spec fn try_from_spec(v: i64) -> Result<CharSize, TryFromError<i64>> {
        match CharSize::spec_from_int(v as int) {
            Some(x) => Ok(x),
            None => Err(TryFromError::spec_new(v, CHAR_SIZE_EXPECTED)),
        }
    }
}

impl TryFrom<usize> for CharSize {
    type Error = TryFromError<usize>;

    fn try_from(value: usize) -> (r: Result<CharSize, TryFromError<usize>>) {
        let narrowed = match u8::try_from(value) {
            Ok(n) => n,
            Err(_) => {
                return Err(CharSize::unexpected(value));
            },
        };
        match CharSize::try_from(narrowed) {
            Ok(v) => Ok(v),
            Err(_) => Err(CharSize::unexpected(value)),
        }
    }
}

impl vstd::std_specs::convert::TryFromSpecImpl<usize> for CharSize {
    open spec fn obeys_try_from_spec() -> bool {
        true
    }

    open spec fn try_from_spec(v: usize) -> Result<CharSize, TryFromError<usize>> {
        match CharSize::spec_from_int(v as int) {
            Some(x) => Ok(x),
            None => Err(TryFromError::spec_new(v, CHAR_SIZE_EXPECTED)),
        }
    }
}

impl TryFrom<isize> for CharSize {
    type Error = TryFromError<isize>;

    fn try_from(value: isize) -> (r: Result<CharSize, TryFromError<isize>>) {
        let narrowed = match u8::try_from(value) {
            Ok(n) => n,
            Err(_) => {
                return Err(CharSize::unexpected(value));
            },
        };
        match CharSize::try_from(narrowed) {
            Ok(v) => Ok(v),
            Err(_) => Err(CharSize::unexpected(value)),
        }
    }
}

impl vstd::std_specs::convert::TryFromSpecImpl<isize> for CharSize {
    open spec fn obeys_try_from_spec() -> bool {
        true
    }

    open spec fn try_from_spec(v: isize) -> Result<CharSize, TryFromError<isize>> {
        match CharSize::spec_from_int(v as int) {
            Some(x) => Ok(x),
            None => Err(TryFromError::spec_new(v, CHAR_SIZE_EXPECTED)),
        }
    }
}

/// The number of stop bits per character for a serial port.
#[derive(Debug, Copy, Clone, Eq, PartialEq, Structural)]
pub enum StopBits {
    /// One stop bit.
    One,
    /// Two stop bits.
    Two,
}

impl StopBits {
    /// The number of stop bits, as a mathematical value.
    pub open spec fn spec_as_u8(self) -> u8 {
        match self {
            StopBits::One => 1,
            StopBits::Two => 2,
        }
    }

    /// The stop bit count denoted by a number, if any.
    pub open spec fn spec_from_int(v: int) -> Option<StopBits> {
        if v == 1 {
            Some(StopBits::One)
        } else if v == 2 {
            Some(StopBits::Two)
        } else {
            None
        }
    }

    /// Get the number of stop bits as a [`u8`].
    pub fn as_u8(self) -> (r: u8)
        ensures
            r == self.spec_as_u8(),
    {
        match self {
            StopBits::One => 1,
            StopBits::Two => 2,
        }
    }

    /// Create a [`TryFromError`] for an unexpected value.
    fn unexpected<T>(unexpected: T) -> (r: TryFromError<T>)
        ensures
            r == TryFromError::spec_new(unexpected, STOP_BITS_EXPECTED),
    {
        TryFromError {
            unexpected,
            expected: STOP_BITS_EXPECTED,
        }
    }
}

impl TryFrom<u8> for StopBits {
    type Error = TryFromError<u8>;

    fn try_from(value: u8) -> (r: Result<StopBits, TryFromError<u8>>) {
        match value {
            1 => Ok(StopBits::One),
            2 => Ok(StopBits::Two),
            x => Err(StopBits::unexpected(x)),
        }
    }
}

impl vstd::std_specs::convert::TryFromSpecImpl<u8> for StopBits {
    open spec fn obeys_try_from_spec() -> bool {
        true
    }

    open spec fn try_from_spec(v: u8) -> Result<StopBits, TryFromError<u8>> {
        match StopBits::spec_from_int(v as int) {
            Some(s) => Ok(s),
            None => Err(TryFromError::spec_new(v, STOP_BITS_EXPECTED)),
        }
    }
}


impl TryFrom<i8> for StopBits {
    type Error = TryFromError<i8>;

    fn try_from(value: i8) -> (r: Result<StopBits, TryFromError<i8>>) {
        let narrowed = match u8::try_from(value) {
            Ok(n) => n,
            Err(_) => {
                return Err(StopBits::unexpected(value));
            },
        };
        match StopBits::try_from(narrowed) {
            Ok(v) => Ok(v),
            Err(_) => Err(StopBits::unexpected(value)),
        }
    }
}

impl vstd::std_specs::convert::TryFromSpecImpl<i8> for StopBits {
    open spec fn obeys_try_from_spec() -> bool {
        true
    }

    open spec fn try_from_spec(v: i8) -> Result<StopBits, TryFromError<i8>> {
        match StopBits::spec_from_int(v as int) {
            Some(x) => Ok(x),
            None => Err(TryFromError::spec_new(v, STOP_BITS_EXPECTED)),
        }
    }
}

impl TryFrom<u16> for StopBits {
    type Error = TryFromError<u16>;

    fn try_from(value: u16) -> (r: Result<StopBits, TryFromError<u16>>) {
        let narrowed = match u8::try_from(value) {
            Ok(n) => n,
            Err(_) => {
                return Err(StopBits::unexpected(value));
            },
        };
        match StopBits::try_from(narrowed) {
            Ok(v) => Ok(v),
            Err(_) => Err(StopBits::unexpected(value)),
        }
    }
}

impl vstd::std_specs::convert::TryFromSpecImpl<u16> for StopBits {
    open spec fn obeys_try_from_spec() -> bool {
        true
    }

    open spec fn try_from_spec(v: u16) -> Result<StopBits, TryFromError<u16>> {
        match StopBits::spec_from_int(v as int) {
            Some(x) => Ok(x),
            None => Err(TryFromError::spec_new(v, STOP_BITS_EXPECTED)),
        }
    }
}

impl TryFrom<i16> for StopBits {
    type Error = TryFromError<i16>;

    fn try_from(value: i16) -> (r: Result<StopBits, TryFromError<i16>>) {
        let narrowed = match u8::try_from(value) {
            Ok(n) => n,
            Err(_) => {
                return Err(StopBits::unexpected(value));
            },
        };
        match StopBits::try_from(narrowed) {
            Ok(v) => Ok(v),
            Err(_) => Err(StopBits::unexpected(value)),
        }
    }
}

impl vstd::std_specs::convert::TryFromSpecImpl<i16> for StopBits {
    open spec fn obeys_try_from_spec() -> bool {
        true
    }

    open spec fn try_from_spec(v: i16) -> Result<StopBits, TryFromError<i16>> {
        match StopBits::spec_from_int(v as int) {
            Some(x) => Ok(x),
            None => Err(TryFromError::spec_new(v, STOP_BITS_EXPECTED)),
        }
    }
}

impl TryFrom<u32> for StopBits {
    type Error = TryFromError<u32>;

    fn try_from(value: u32) -> (r: Result<StopBits, TryFromError<u32>>) {
        let narrowed = match u8::try_from(value) {
            Ok(n) => n,
            Err(_) => {
                return Err(StopBits::unexpected(value));
            },
        };
        match StopBits::try_from(narrowed) {
            Ok(v) => Ok(v),
            Err(_) => Err(StopBits::unexpected(value)),
        }
    }
}

impl vstd::std_specs::convert::TryFromSpecImpl<u32> for StopBits {
    open spec fn obeys_try_from_spec() -> bool {
        true
    }

    open spec fn try_from_spec(v: u32) -> Result<StopBits, TryFromError<u32>> {
        match StopBits::spec_from_int(v as int) {
            Some(x) => Ok(x),
            None => Err(TryFromError::spec_new(v, STOP_BITS_EXPECTED)),
        }
    }
}

impl TryFrom<i32> for StopBits {
    type Error = TryFromError<i32>;

    fn try_from(value: i32) -> (r: Result<StopBits, TryFromError<i32>>) {
        let narrowed = match u8::try_from(value) {
            Ok(n) => n,
            Err(_) => {
                return Err(StopBits::unexpected(value));
            },
        };
        match StopBits::try_from(narrowed) {
            Ok(v) => Ok(v),
            Err(_) => Err(StopBits::unexpected(value)),
        }
    }
}

impl vstd::std_specs::convert::TryFromSpecImpl<i32> for StopBits {
    open spec fn obeys_try_from_spec() -> bool {
        true
    }

    open spec fn try_from_spec(v: i32) -> Result<StopBits, TryFromError<i32>> {
        match StopBits::spec_from_int(v as int) {
            Some(x) => Ok(x),
            None => Err(TryFromError::spec_new(v, STOP_BITS_EXPECTED)),
        }
    }
}

impl TryFrom<u64> for StopBits {
    type Error = TryFromError<u64>;

    fn try_from(value: u64) -> (r: Result<StopBits, TryFromError<u64>>) {
        let narrowed = match u8::try_from(value) {
            Ok(n) => n,
            Err(_) => {
                return Err(StopBits::unexpected(value));
            },
        };
        match StopBits::try_from(narrowed) {
            Ok(v) => Ok(v),
            Err(_) => Err(StopBits::unexpected(value)),
        }
    }
}

impl vstd::std_specs::convert::TryFromSpecImpl<u64> for StopBits {
    open spec fn obeys_try_from_spec() -> bool {
        true
    }

    open spec fn try_from_spec(v: u64) -> Result<StopBits, TryFromError<u64>> {
        match StopBits::spec_from_int(v as int) {
            Some(x) => Ok(x),
            None => Err(TryFromError::spec_new(v, STOP_BITS_EXPECTED)),
        }
    }
}

impl TryFrom<i64> for StopBits {
    type Error = TryFromError<i64>;

    fn try_from(value: i64) -> (r: Result<StopBits, TryFromError<i64>>) {
        let narrowed = match u8::try_from(value) {
            Ok(n) => n,
            Err(_) => {
                return Err(StopBits::unexpected(value));
            },
        };
        match StopBits::try_from(narrowed) {
            Ok(v) => Ok(v),
            Err(_) => Err(StopBits::unexpected(value)),
        }
    }
}

impl vstd::std_specs::convert::TryFromSpecImpl<i64> for StopBits {
    open spec fn obeys_try_from_spec() -> bool {
        true
    }

    open spec fn try_from_spec(v: i64) -> Result<StopBits, TryFromError<i64>> {
        match StopBits::spec_from_int(v as int) {
            Some(x) => Ok(x),
            None => Err(TryFromError::spec_new(v, STOP_BITS_EXPECTED)),
        }
    }
}

impl TryFrom<usize> for StopBits {
    type Error = TryFromError<usize>;

    fn try_from(value: usize) -> (r: Result<StopBits, TryFromError<usize>>) {
        let narrowed = match u8::try_from(value) {
            Ok(n) => n,
            Err(_) => {
                return Err(StopBits::unexpected(value));
            },
        };
        match StopBits::try_from(narrowed) {
            Ok(v) => Ok(v),
            Err(_) => Err(StopBits::unexpected(value)),
        }
    }
}

impl vstd::std_specs::convert::TryFromSpecImpl<usize> for StopBits {
    open spec fn obeys_try_from_spec() -> bool {
        true
    }

    open spec fn try_from_spec(v: usize) -> Result<StopBits, TryFromError<usize>> {
        match StopBits::spec_from_int(v as int) {
            Some(x) => Ok(x),
            None => Err(TryFromError::spec_new(v, STOP_BITS_EXPECTED)),
        }
    }
}

impl TryFrom<isize> for StopBits {
    type Error = TryFromError<isize>;

    fn try_from(value: isize) -> (r: Result<StopBits, TryFromError<isize>>) {
        let narrowed = match u8::try_from(value) {
            Ok(n) => n,
            Err(_) => {
                return Err(StopBits::unexpected(value));
            },
        };
        match StopBits::try_from(narrowed) {
            Ok(v) => Ok(v),
            Err(_) => Err(StopBits::unexpected(value)),
        }
    }
}

impl vstd::std_specs::convert::TryFromSpecImpl<isize> for StopBits {
    open spec fn obeys_try_from_spec() -> bool {
        true
    }

    open spec fn try_from_spec(v: isize) -> Result<StopBits, TryFromError<isize>> {
        match StopBits::spec_from_int(v as int) {
            Some(x) => Ok(x),
            None => Err(TryFromError::spec_new(v, STOP_BITS_EXPECTED)),
        }
    }
}


/// Compare two string slices by their character content.
fn str_eq(a: &str, b: &str) -> (r: bool)
    ensures
        r == (a@ == b@),
{
    let a_owned: String = a.to_owned();
    let b_owned: String = b.to_owned();
    a_owned == b_owned
}

/// The type of parity check for a serial port.
#[derive(Debug, Copy, Clone, Eq, PartialEq, Structural)]
pub enum Parity {
    /// Do not add a parity bit and do not check for parity.
    Off,
    /// Add a bit to ensure odd parity of all characters sent over the serial port.
    Odd,
    /// Add a bit to ensure even parity of all characters sent over the serial port.
    Even,
}

impl Parity {
    /// The lowercase name of the parity check, as a sequence of characters.
    pub open spec fn spec_as_str(self) -> Seq<char> {
        match self {
            Parity::Off => "none"@,
            Parity::Odd => "odd"@,
            Parity::Even => "even"@,
        }
    }

    /// The parity check denoted by a name, if any.
    pub open spec fn spec_from_str(s: Seq<char>) -> Option<Parity> {
        if s == "none"@ {
            Some(Parity::Off)
        } else if s == "odd"@ {
            Some(Parity::Odd)
        } else if s == "even"@ {
            Some(Parity::Even)
        } else {
            None
        }
    }

    /// Get the parity as lowercase [`&str`].
    pub fn as_str(self) -> (r: &'static str)
        ensures
            r@ == self.spec_as_str(),
    {
        match self {
            Parity::Off => "none",
            Parity::Odd => "odd",
            Parity::Even => "even",
        }
    }

    /// Parse the parity from a string.
    pub fn from_str<'a>(input: &'a str) -> (r: Result<Parity, TryFromError<&'a str>>)
        ensures
            (match Parity::spec_from_str(input@) {
                Some(p) => r == Ok::<Parity, TryFromError<&'a str>>(p),
                None => r == Err::<Parity, TryFromError<&'a str>>(
                    TryFromError::spec_new(input, PARITY_EXPECTED),
                ),
            }),
    {
        if str_eq(input, "none") {
            Ok(Parity::Off)
        } else if str_eq(input, "odd") {
            Ok(Parity::Odd)
        } else if str_eq(input, "even") {
            Ok(Parity::Even)
        } else {
            Err(TryFromError {
                unexpected: input,
                expected: PARITY_EXPECTED,
            })
        }
    }
}

impl<'a> TryFrom<&'a str> for Parity {
    type Error = TryFromError<&'a str>;

    fn try_from(value: &'a str) -> (r: Result<Parity, TryFromError<&'a str>>) {
        Parity::from_str(value)
    }
}

impl<'a> vstd::std_specs::convert::TryFromSpecImpl<&'a str> for Parity {
    open spec fn obeys_try_from_spec() -> bool {
        true
    }

    open spec fn try_from_spec(v: &'a str) -> Result<Parity, TryFromError<&'a str>> {
        match Parity::spec_from_str(v@) {
            Some(p) => Ok(p),
            None => Err(TryFromError::spec_new(v, PARITY_EXPECTED)),
        }
    }
}

/// The type of flow control for a serial port.
#[derive(Debug, Copy, Clone, Eq, PartialEq, Structural)]
pub enum FlowControl {
    /// Do not perform any automatic flow control.
    Off,
    /// Perform XON/XOFF flow control, also known as software flow control.
    XonXoff,
    /// Perform RTS/CTS flow control, also known as hardware flow control.
    RtsCts,
}

impl FlowControl {
    /// The lowercase name of the flow control method, as a sequence of characters.
    pub open spec fn spec_as_str(self) -> Seq<char> {
        match self {
            FlowControl::Off => "none"@,
            FlowControl::XonXoff => "xon/xoff"@,
            FlowControl::RtsCts => "rts/cts"@,
        }
    }

    /// The flow control method denoted by a name, if any.
    pub open spec fn spec_from_str(s: Seq<char>) -> Option<FlowControl> {
        if s == "none"@ {
            Some(FlowControl::Off)
        } else if s == "xon/xoff"@ {
            Some(FlowControl::XonXoff)
        } else if s == "rts/cts"@ {
            Some(FlowControl::RtsCts)
        } else {
            None
        }
    }

    /// Get the flow control method as lowercase [`&str`].
    pub fn as_str(self) -> (r: &'static str)
        ensures
            r@ == self.spec_as_str(),
    {
        match self {
            FlowControl::Off => "none",
            FlowControl::XonXoff => "xon/xoff",
            FlowControl::RtsCts => "rts/cts",
        }
    }

    /// Parse the flow control method from a string.
    pub fn from_str<'a>(input: &'a str) -> (r: Result<FlowControl, TryFromError<&'a str>>)
        ensures
            (match FlowControl::spec_from_str(input@) {
                Some(f) => r == Ok::<FlowControl, TryFromError<&'a str>>(f),
                None => r == Err::<FlowControl, TryFromError<&'a str>>(
                    TryFromError::spec_new(input, FLOW_CONTROL_EXPECTED),
                ),
            }),
    {
        if str_eq(input, "none") {
            Ok(FlowControl::Off)
        } else if str_eq(input, "xon/xoff") {
            Ok(FlowControl::XonXoff)
        } else if str_eq(input, "rts/cts") {
            Ok(FlowControl::RtsCts)
        } else {
            Err(TryFromError {
                unexpected: input,
                expected: FLOW_CONTROL_EXPECTED,
            })
        }
    }
}

impl<'a> TryFrom<&'a str> for FlowControl {
    type Error = TryFromError<&'a str>;

    fn try_from(value: &'a str) -> (r: Result<FlowControl, TryFromError<&'a str>>) {
        FlowControl::from_str(value)
    }
}

impl<'a> vstd::std_specs::convert::TryFromSpecImpl<&'a str> for FlowControl {
    open spec fn obeys_try_from_spec() -> bool {
        true
    }

    open spec fn try_from_spec(v: &'a str) -> Result<FlowControl, TryFromError<&'a str>> {
        match FlowControl::spec_from_str(v@) {
            Some(f) => Ok(f),
            None => Err(TryFromError::spec_new(v, FLOW_CONTROL_EXPECTED)),
        }
    }
}


/// An error in translating between the portable settings model and a native
/// control structure, or in confirming an applied configuration.
#[derive(Debug, Copy, Clone, Eq, PartialEq, Structural)]
pub enum SettingsError {
    /// The requested baud rate has no representation on this platform.
    UnsupportedBaudRate,
    /// The live baud rate bits match no known baud rate.
    UnrecognizedBaudRate,
    /// The live character size bits match no supported character size.
    UnrecognizedCharSize,
    /// The live stop bit field matches no supported stop bit count.
    UnsupportedStopBits,
    /// The live parity fields match no supported parity configuration.
    UnsupportedParity,
    /// The live flow control bits match none of the known combinations.
    UnknownFlowControlConfiguration,
    /// The device accepted the configuration call but the read-back does not
    /// match the request within tolerance.
    ConfigurationRejected,
}

impl SettingsError {
    /// The description of the error, as a sequence of characters.
    pub open spec fn spec_message(self) -> Seq<char> {
        match self {
            SettingsError::UnsupportedBaudRate => "unsupported baud rate"@,
            SettingsError::UnrecognizedBaudRate => "unrecognized baud rate"@,
            SettingsError::UnrecognizedCharSize => "unrecognized char size"@,
            SettingsError::UnsupportedStopBits => "unsupported stop bits"@,
            SettingsError::UnsupportedParity => "unsupported parity configuration"@,
            SettingsError::UnknownFlowControlConfiguration => "unknown flow control configuration"@,
            SettingsError::ConfigurationRejected => "failed to apply some or all settings"@,
        }
    }

    /// Describe the error as text.
    pub fn message(&self) -> (r: String)
        ensures
            r@ == self.spec_message(),
    {
        match self {
            SettingsError::UnsupportedBaudRate => "unsupported baud rate".to_owned(),
            SettingsError::UnrecognizedBaudRate => "unrecognized baud rate".to_owned(),
            SettingsError::UnrecognizedCharSize => "unrecognized char size".to_owned(),
            SettingsError::UnsupportedStopBits => "unsupported stop bits".to_owned(),
            SettingsError::UnsupportedParity => "unsupported parity configuration".to_owned(),
            SettingsError::UnknownFlowControlConfiguration => "unknown flow control configuration".to_owned(),
            SettingsError::ConfigurationRejected => "failed to apply some or all settings".to_owned(),
        }
    }
}


/// Common baud rates used by many applications and devices.
///
/// The supported platform families also accept custom baud rates, so these
/// are not the only possible values, and it is not guaranteed that a device
/// supports all of them. They can be useful to populate a user interface
/// with some common options though.
pub const COMMON_BAUD_RATES: [u32; 14] = [
    4800,
    9600,
    19200,
    38400,
    57600,
    115200,
    230400,
    460800,
    500000,
    576000,
    921600,
    1000000,
    1500000,
    2000000,
];

/// The settings of a serial port.
///
/// A `Settings` value wraps the native control block and projects the
/// portable configuration fields onto it; state of the control block that no
/// portable field covers passes through unchanged.
#[derive(Debug, Copy, Clone)]
pub struct Settings {
    inner: crate::termios::RawTermios,
}

impl View for Settings {
    type V = crate::termios::RawTermios;

    closed spec fn view(&self) -> crate::termios::RawTermios {
        self.inner
    }
}

impl Settings {
    /// Wrap a native control block, as read back from a device, in the
    /// portable settings facade.
    pub fn from_termios(termios: crate::termios::RawTermios) -> (r: Settings)
        ensures
            r@ == termios,
    {
        Settings { inner: termios }
    }

    /// Disable all OS level input and output processing.
    ///
    /// All input and output processing will be disabled, and the
    /// configuration will be set for 8 bit binary communication, one stop
    /// bit, no parity checks and no flow control.
    ///
    /// This is usually a good starting point for manual configuration.
    pub fn set_raw(&mut self)
        ensures
            final(self)@ == old(self)@.spec_set_raw(),
    {
        self.inner.set_raw();
    }

    /// Set the baud rate to be configured.
    ///
    /// The device itself may not support the requested baud rate even when
    /// this function accepts it; in that case applying the configuration
    /// will report the rejection.
    pub fn set_baud_rate(&mut self, baud_rate: u32) -> (r: Result<(), SettingsError>)
        ensures
            r == Ok::<(), SettingsError>(()),
            final(self)@ == old(self)@.spec_set_baud_rate(baud_rate),
    {
        self.inner.set_baud_rate(baud_rate)
    }

    /// Get the baud rate from the configuration.
    pub fn get_baud_rate(&self) -> (r: Result<u32, SettingsError>)
        ensures
            r == self@.spec_get_baud_rate(),
    {
        self.inner.get_baud_rate()
    }

    /// Set the number of bits in a character.
    pub fn set_char_size(&mut self, char_size: CharSize)
        ensures
            final(self)@ == old(self)@.spec_set_char_size(char_size),
    {
        self.inner.set_char_size(char_size)
    }

    /// Get the number of bits in a character.
    pub fn get_char_size(&self) -> (r: Result<CharSize, SettingsError>)
        ensures
            r == self@.spec_get_char_size(),
    {
        self.inner.get_char_size()
    }

    /// Set the number of stop bits following each character.
    pub fn set_stop_bits(&mut self, stop_bits: StopBits)
        ensures
            final(self)@ == old(self)@.spec_set_stop_bits(stop_bits),
    {
        self.inner.set_stop_bits(stop_bits)
    }

    /// Get the number of stop bits following each character.
    pub fn get_stop_bits(&self) -> (r: Result<StopBits, SettingsError>)
        ensures
            r == Ok::<StopBits, SettingsError>(self@.spec_get_stop_bits()),
    {
        self.inner.get_stop_bits()
    }

    /// Set the parity check.
    pub fn set_parity(&mut self, parity: Parity)
        ensures
            final(self)@ == old(self)@.spec_set_parity(parity),
    {
        self.inner.set_parity(parity)
    }

    /// Get the parity check.
    pub fn get_parity(&self) -> (r: Result<Parity, SettingsError>)
        ensures
            r == Ok::<Parity, SettingsError>(self@.spec_get_parity()),
    {
        self.inner.get_parity()
    }

    /// Set the flow control mechanism.
    ///
    /// See the individual documentation of the [`FlowControl`] variants for
    /// more information.
    pub fn set_flow_control(&mut self, flow_control: FlowControl)
        ensures
            final(self)@ == old(self)@.spec_set_flow_control(flow_control),
    {
        self.inner.set_flow_control(flow_control)
    }

    /// Get the flow control mechanism.
    pub fn get_flow_control(&self) -> (r: Result<FlowControl, SettingsError>)
        ensures
            r == self@.spec_get_flow_control(),
    {
        self.inner.get_flow_control()
    }

    /// Check whether this configuration, read back from the device, matches
    /// a requested one: all fields but the baud bits exactly, the decoded
    /// baud rate within one fortieth (2.5%) of the requested rate, and two
    /// undecodable baud encodings counting as a match.
    pub fn matches_requested(&self, requested: &Settings) -> (r: bool)
        ensures
            r == self@.spec_matches_requested(requested@),
    {
        self.inner.matches_requested(&requested.inner)
    }

    /// Confirm that the configuration read back from a device matches this
    /// requested one within tolerance, as applying a configuration demands;
    /// a mismatch means the device accepted the configuration call without
    /// honouring it, and is reported as a rejection, never ignored.
    pub fn confirm_applied(&self, applied: &Settings) -> (r: Result<(), SettingsError>)
        ensures
            applied@.spec_matches_requested(self@) ==> r == Ok::<(), SettingsError>(()),
            !applied@.spec_matches_requested(self@) ==> r == Err::<(), SettingsError>(
                SettingsError::ConfigurationRejected,
            ),
    {
        if applied.matches_requested(self) {
            Ok(())
        } else {
            Err(SettingsError::ConfigurationRejected)
        }
    }

    /// Get a reference to the raw control block.
    ///
    /// This gives access to platform specific state of the serial port that
    /// the portable fields do not cover.
    pub fn as_termios(&self) -> (r: &crate::termios::RawTermios)
        ensures
            *r == self@,
    {
        &self.inner
    }

    /// Get a mutable reference to the raw control block.
    ///
    /// This gives access to platform specific state of the serial port that
    /// the portable fields do not cover.
    pub fn as_termios_mut(&mut self) -> (r: &mut crate::termios::RawTermios)
        ensures
            *r == old(self)@,
            final(self)@ == *final(r),
    {
        &mut self.inner
    }
}

} // verus!
