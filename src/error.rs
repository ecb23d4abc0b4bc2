//! The errors that segment and placement operations report.
use vstd::prelude::*;
use vstd::string::StringExecFns;

verus! {

/// The OS code for an operation that the caller is not permitted to make.
pub const EPERM: i32 = 1;

/// The OS code for a name that does not exist.
pub const ENOENT: i32 = 2;

/// The OS code for an operation that gave up waiting.
pub const ETIMEDOUT: i32 = 110;

/// What went wrong.
#[derive(Clone, Copy, Debug, PartialEq, Eq, Structural)]
pub enum ErrorKind {
    /// The value does not fit; carries the number of bytes that were available.
    SizeError(usize),
    /// The address is misaligned; carries the alignment that was required.
    AlignmentError(usize),
    /// An OS call failed; carries its error code.
    IoError(i32),
}

/// An error of this library, one of the kinds of [`ErrorKind`].
#[derive(Clone, Copy, Debug, PartialEq, Eq, Structural)]
pub struct Error {
    kind: ErrorKind,
}

pub type Result<T> = core::result::Result<T, Error>;

impl Error {
    /// The kind, as contracts see it.
    pub closed spec fn spec_kind(&self) -> ErrorKind {
        self.kind
    }

    pub fn new(kind: ErrorKind) -> (r: Error)
        ensures
            r.spec_kind() == kind,
    {
        Error { kind }
    }

    /// A description for people: the size or the alignment that was wanted,
    /// or the OS's description of its error.
    pub fn message(&self) -> (r: String)
        ensures
            !(self.spec_kind() is IoError) ==> r@ == message_of(self.spec_kind()),
            self.spec_kind() is IoError ==> r@.len() >= message_of(self.spec_kind()).len()
                && r@.subrange(0, message_of(self.spec_kind()).len() as int) == message_of(
                self.spec_kind(),
            ),
    {
        match self.kind {
            ErrorKind::SizeError(n) => {
                let mut r = String::from_str("size of object must be less than or equal to ");
                append_decimal(&mut r, n);
                r.append(" bytes");
                r
            },
            ErrorKind::AlignmentError(a) => {
                let mut r = String::from_str("alignment of object must have an alignment of ");
                append_decimal(&mut r, a);
                r
            },
            ErrorKind::IoError(code) => {
                let mut r = String::from_str("io error: ");
                let text = os_error_text(code);
                r.append(text.as_str());
                assert(r@.subrange(0, message_of(self.kind).len() as int) =~= message_of(self.kind));
                r
            },
        }
    }

    pub fn kind(&self) -> (r: ErrorKind)
        ensures
            r == self.spec_kind(),
    {
        self.kind
    }
}

/// The character of the decimal digit `d`.
pub open spec fn digit_char(d: nat) -> char {
    if d == 0 {
        '0'
    } else if d == 1 {
        '1'
    } else if d == 2 {
        '2'
    } else if d == 3 {
        '3'
    } else if d == 4 {
        '4'
    } else if d == 5 {
        '5'
    } else if d == 6 {
        '6'
    } else if d == 7 {
        '7'
    } else if d == 8 {
        '8'
    } else {
        '9'
    }
}

/// `n` written in decimal, with no leading zeros.
pub open spec fn decimal(n: nat) -> Seq<char>
    decreases n,
{
    if n < 10 {
        seq![digit_char(n)]
    } else {
        decimal(n / 10) + seq![digit_char(n % 10)]
    }
}

fn digit_str(d: usize) -> (r: &'static str)
    requires
        d < 10,
    ensures
        r@ == seq![digit_char(d as nat)],
{
    proof {
        reveal_strlit("0");
        reveal_strlit("1");
        reveal_strlit("2");
        reveal_strlit("3");
        reveal_strlit("4");
        reveal_strlit("5");
        reveal_strlit("6");
        reveal_strlit("7");
        reveal_strlit("8");
        reveal_strlit("9");
    }
    if d == 0 {
        "0"
    } else if d == 1 {
        "1"
    } else if d == 2 {
        "2"
    } else if d == 3 {
        "3"
    } else if d == 4 {
        "4"
    } else if d == 5 {
        "5"
    } else if d == 6 {
        "6"
    } else if d == 7 {
        "7"
    } else if d == 8 {
        "8"
    } else {
        "9"
    }
}

fn append_decimal(out: &mut String, n: usize)
    ensures
        final(out)@ == old(out)@ + decimal(n as nat),
    decreases n,
{
    if n >= 10 {
        append_decimal(out, n / 10);
    }
    out.append(digit_str(n % 10));
    assert(final(out)@ =~= old(out)@ + decimal(n as nat));
}

/// Relies on std::io::Error::from_raw_os_error and its `Display`: the OS's
/// description of the code.
#[verifier::external_body]
fn os_error_text(code: i32) -> String {
    std::io::Error::from_raw_os_error(code).to_string()
}

/// The message of an error of kind `k`, for all but OS errors, whose message
/// the OS supplies.
pub open spec fn message_of(k: ErrorKind) -> Seq<char> {
    match k {
        ErrorKind::SizeError(n) => "size of object must be less than or equal to "@ + decimal(
            n as nat,
        ) + " bytes"@,
        ErrorKind::AlignmentError(a) => "alignment of object must have an alignment of "@
            + decimal(a as nat),
        ErrorKind::IoError(_) => "io error: "@,
    }
}

/// The result of an OS call that reports a status code: `Ok` for 0, else an
/// `IoError` carrying the code as it came.
pub fn os_result(code: i32) -> (r: Result<()>)
    ensures
        code == 0 ==> r is Ok,
        code != 0 ==> r is Err && r->Err_0.spec_kind() == ErrorKind::IoError(code),
{
    if code == 0 {
        Ok(())
    } else {
        Err(Error::new(ErrorKind::IoError(code)))
    }
}

} // verus!
