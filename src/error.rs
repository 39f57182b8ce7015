use vstd::prelude::*;
use vstd::string::StringSliceAdditionalSpecFns;

verus! {

/// Error kinds that can be reported to the native library by code.
#[derive(Clone, Copy, Debug, PartialEq, Eq, Structural)]
pub enum Error {
    NoMemError,
    ReadError,
    WriteError,
    SeekError,
    UnsupportedError,
}

/// The native library's numeric code for an error kind.
pub open spec fn code_of(e: Error) -> u32 {
    match e {
        Error::NoMemError => 0,
        Error::ReadError => 1,
        Error::WriteError => 2,
        Error::SeekError => 3,
        Error::UnsupportedError => 4,
    }
}

impl Error {
    /// The numeric code handed to the native error setter.
    pub fn code(&self) -> (r: u32)
        ensures
            r == code_of(*self),
    {
        match self {
            Error::NoMemError => 0,
            Error::ReadError => 1,
            Error::WriteError => 2,
            Error::SeekError => 3,
            Error::UnsupportedError => 4,
        }
    }
}

/// Error text that cannot become a NUL-terminated string: it holds a NUL byte.
#[derive(Clone, Copy, Debug, PartialEq, Eq, Structural)]
pub struct NulError {
    pub position: usize,
}

impl NulError {
    /// Byte offset of the first NUL byte in the rejected text.
    pub fn nul_position(&self) -> (r: usize)
        ensures
            r == self.position,
    {
        self.position
    }
}

/// Whether a byte sequence holds no NUL byte.
pub open spec fn nul_free(b: Seq<u8>) -> bool {
    forall|i: int| 0 <= i < b.len() ==> b[i] != 0u8
}

/// What a reader of a NUL-terminated buffer sees: the bytes before the first NUL.
pub open spec fn c_content(b: Seq<u8>) -> Seq<u8>
    decreases b.len(),
{
    if b.len() == 0 || b[0] == 0u8 {
        Seq::empty()
    } else {
        seq![b[0]].add(c_content(b.drop_first()))
    }
}

/// Turns error text into the NUL-terminated bytes that the native error
/// setter takes, or reports where the text holds a NUL byte.
pub fn error_text_to_c(text: &str) -> (r: Result<Vec<u8>, NulError>)
    ensures
        r is Ok <==> nul_free(text.spec_bytes()),
        r matches Ok(buf) ==> buf@ == text.spec_bytes().push(0u8),
        r matches Err(e) ==> {
            &&& e.position < text.spec_bytes().len()
            &&& text.spec_bytes()[e.position as int] == 0u8
            &&& nul_free(text.spec_bytes().take(e.position as int))
        },
{
    let bytes = text.as_bytes();
    let mut buf: Vec<u8> = Vec::new();
    let mut i: usize = 0;
    while i < bytes.len()
        invariant
            bytes@ == text.spec_bytes(),
            i <= bytes@.len(),
            buf@ == bytes@.take(i as int),
            nul_free(buf@),
        decreases bytes@.len() - i,
    {
        if bytes[i] == 0u8 {
            return Err(NulError { position: i });
        }
        buf.push(bytes[i]);
        i = i + 1;
        assert(buf@ =~= bytes@.take(i as int));
    }
    assert(buf@ =~= bytes@);
    buf.push(0u8);
    Ok(buf)
}

/// Errors of the lifecycle operations.
#[derive(Debug)]
pub enum ContextError {
    /// A context is already alive (or being initialised).
    AlreadyInitialized,
    /// An event pump is already alive (or being obtained).
    AlreadyActive,
    /// The native library reported a failure, with its error text.
    Native(String),
}

impl ContextError {
    /// A human-readable description of the error.
    pub fn message(&self) -> (r: String)
        ensures
            self matches ContextError::Native(m) ==> r@ == m@,
            self is AlreadyInitialized ==> r@ == "Cannot initialize `Sdl` more than once at a time."@,
            self is AlreadyActive ==> r@
                == "an `EventPump` instance is already alive - there can only be one `EventPump` in use at a time."@,
    {
        match self {
            ContextError::AlreadyInitialized => {
                "Cannot initialize `Sdl` more than once at a time.".to_owned()
            },
            ContextError::AlreadyActive => {
                "an `EventPump` instance is already alive - there can only be one `EventPump` in use at a time.".to_owned()
            },
            ContextError::Native(m) => m.clone(),
        }
    }
}

} // verus!
