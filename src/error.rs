use vstd::prelude::*;

verus! {

/// The file operation that failed.
#[derive(Debug, Clone, Copy, PartialEq, Eq, Structural)]
pub enum FileOp {
    Read,
    Write,
}

/// Every failure that a command reports. Each carries the text that the
/// underlying library or the operating system gave.
#[derive(Debug, Clone)]
pub enum AppError {
    /// The input is not a JSON text.
    Parse(String),
    /// The written bytes are not UTF-8.
    Encoding(String),
    /// The settings store could not be opened, read or flushed.
    Store(String),
    /// A file could not be read or written.
    Io { op: FileOp, path: String, detail: String },
}

/// The verb that names an operation in a message.
pub open spec fn op_verb(op: FileOp) -> Seq<char> {
    match op {
        FileOp::Read => "read"@,
        FileOp::Write => "write"@,
    }
}

/// The message of a failed file operation: the operation, the quoted path and
/// the reason.
pub open spec fn io_message(op: FileOp, path: Seq<char>, detail: Seq<char>) -> Seq<char> {
    "Failed to "@ + op_verb(op) + " file '"@ + path + "': "@ + detail
}

/// The message shown for an error.
pub open spec fn message_of(e: AppError) -> Seq<char> {
    match e {
        AppError::Parse(d) => "Failed to parse JSON: "@ + d@,
        AppError::Encoding(d) => "Failed to convert to UTF-8: "@ + d@,
        AppError::Store(d) => d@,
        AppError::Io { op, path, detail } => io_message(op, path@, detail@),
    }
}

impl AppError {
    /// The error for a failed file operation on `path`.
    pub fn io(op: FileOp, path: String, detail: String) -> (r: AppError)
        ensures
            r == (AppError::Io { op, path, detail }),
    {
        AppError::Io { op, path, detail }
    }

    /// The human-readable message, as shown at the command boundary.
    pub fn message(&self) -> (r: String)
        ensures
            r@ == message_of(*self),
    {
        match self {
            AppError::Parse(d) => String::from_str("Failed to parse JSON: ").concat(d.as_str()),
            AppError::Encoding(d) => String::from_str("Failed to convert to UTF-8: ").concat(
                d.as_str(),
            ),
            AppError::Store(d) => d.clone(),
            AppError::Io { op, path, detail } => {
                let verb = match op {
                    FileOp::Read => "read",
                    FileOp::Write => "write",
                };
                let mut m = String::from_str("Failed to ");
                m.append(verb);
                m.append(" file '");
                m.append(path.as_str());
                m.append("': ");
                m.append(detail.as_str());
                m
            },
        }
    }
}

/// The message of a failed file operation names the path it was given,
/// whatever the operation and the reason.
pub proof fn lemma_io_message_names_path(op: FileOp, path: Seq<char>, detail: Seq<char>)
    ensures
        exists|i: int|
            0 <= i && i + path.len() <= io_message(op, path, detail).len()
                && #[trigger] io_message(op, path, detail).subrange(i, i + path.len()) == path,
{
    let head = "Failed to "@ + op_verb(op) + " file '"@;
    let m = io_message(op, path, detail);
    assert(m == head + path + ("': "@ + detail));
    assert(m.subrange(head.len() as int, head.len() + path.len() as int) =~= path);
}

} // verus!
