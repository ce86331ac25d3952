//! Detected errors: their type, location and context.
use vstd::prelude::*;
use crate::text::{dec, owned, u64_to_dec};

verus! {

/// Classification of error types.
#[derive(Debug, Clone, Copy, PartialEq, Eq, Hash, Structural)]
pub enum ErrorType {
    CommandNotFound,
    PermissionDenied,
    FileNotFound,
    SyntaxError,
    ConnectionRefused,
    ConnectionTimeout,
    ConfigurationError,
    ResourceNotFound,
    AuthenticationFailed,
    DiskFull,
    Timeout,
    OutOfMemory,
    PortInUse,
    InvalidArgument,
    DependencyError,
    GitError,
    DockerError,
    KubernetesError,
    DatabaseError,
    Unknown,
}

/// Human-readable name of an error type.
pub open spec fn error_type_name(t: ErrorType) -> Seq<char> {
    match t {
        ErrorType::CommandNotFound => "Command Not Found"@,
        ErrorType::PermissionDenied => "Permission Denied"@,
        ErrorType::FileNotFound => "File Not Found"@,
        ErrorType::SyntaxError => "Syntax Error"@,
        ErrorType::ConnectionRefused => "Connection Refused"@,
        ErrorType::ConnectionTimeout => "Connection Timeout"@,
        ErrorType::ConfigurationError => "Configuration Error"@,
        ErrorType::ResourceNotFound => "Resource Not Found"@,
        ErrorType::AuthenticationFailed => "Authentication Failed"@,
        ErrorType::DiskFull => "Disk Full"@,
        ErrorType::Timeout => "Timeout"@,
        ErrorType::OutOfMemory => "Out of Memory"@,
        ErrorType::PortInUse => "Port Already in Use"@,
        ErrorType::InvalidArgument => "Invalid Argument"@,
        ErrorType::DependencyError => "Dependency Error"@,
        ErrorType::GitError => "Git Error"@,
        ErrorType::DockerError => "Docker Error"@,
        ErrorType::KubernetesError => "Kubernetes Error"@,
        ErrorType::DatabaseError => "Database Error"@,
        ErrorType::Unknown => "Unknown Error"@,
    }
}

/// Error type implied by a process exit code: 2 is a misused command, 126 a
/// permission problem, 127 a missing command, 137 the OOM killer; every
/// other code is unknown.
pub open spec fn error_type_of_exit_code(code: i32) -> ErrorType {
    if code == 2 {
        ErrorType::InvalidArgument
    } else if code == 126 {
        ErrorType::PermissionDenied
    } else if code == 127 {
        ErrorType::CommandNotFound
    } else if code == 137 {
        ErrorType::OutOfMemory
    } else {
        ErrorType::Unknown
    }
}

impl ErrorType {
    /// Human-readable name.
    pub fn name(&self) -> (r: &'static str)
        ensures
            r@ == error_type_name(*self),
    {
        match self {
            ErrorType::CommandNotFound => "Command Not Found",
            ErrorType::PermissionDenied => "Permission Denied",
            ErrorType::FileNotFound => "File Not Found",
            ErrorType::SyntaxError => "Syntax Error",
            ErrorType::ConnectionRefused => "Connection Refused",
            ErrorType::ConnectionTimeout => "Connection Timeout",
            ErrorType::ConfigurationError => "Configuration Error",
            ErrorType::ResourceNotFound => "Resource Not Found",
            ErrorType::AuthenticationFailed => "Authentication Failed",
            ErrorType::DiskFull => "Disk Full",
            ErrorType::Timeout => "Timeout",
            ErrorType::OutOfMemory => "Out of Memory",
            ErrorType::PortInUse => "Port Already in Use",
            ErrorType::InvalidArgument => "Invalid Argument",
            ErrorType::DependencyError => "Dependency Error",
            ErrorType::GitError => "Git Error",
            ErrorType::DockerError => "Docker Error",
            ErrorType::KubernetesError => "Kubernetes Error",
            ErrorType::DatabaseError => "Database Error",
            ErrorType::Unknown => "Unknown Error",
        }
    }

    /// Error type implied by an exit code.
    pub fn from_exit_code(code: i32) -> (r: Self)
        ensures
            r == error_type_of_exit_code(code),
            code == 2 ==> r == ErrorType::InvalidArgument,
            code == 126 ==> r == ErrorType::PermissionDenied,
            code == 127 ==> r == ErrorType::CommandNotFound,
            code == 137 ==> r == ErrorType::OutOfMemory,
            !(code == 2 || code == 126 || code == 127 || code == 137) ==> r == ErrorType::Unknown,
    {
        match code {
            1 => ErrorType::Unknown,
            2 => ErrorType::InvalidArgument,
            126 => ErrorType::PermissionDenied,
            127 => ErrorType::CommandNotFound,
            128 => ErrorType::Unknown,
            130 => ErrorType::Unknown,
            137 => ErrorType::OutOfMemory,
            139 => ErrorType::Unknown,
            _ => ErrorType::Unknown,
        }
    }
}

/// Location in a source file where an error occurred.
#[derive(Debug, Clone, PartialEq, Eq)]
pub struct SourceLocation {
    /// File path.
    pub file: String,
    /// Line number (1-indexed).
    pub line: Option<u32>,
    /// Column number (1-indexed).
    pub column: Option<u32>,
}

/// `file`, `file:line` or `file:line:column`.
pub open spec fn location_text(loc: SourceLocation) -> Seq<char> {
    match loc.line {
        Some(l) => loc.file@ + ":"@ + dec(l as nat) + match loc.column {
            Some(c) => ":"@ + dec(c as nat),
            None => Seq::<char>::empty(),
        },
        None => loc.file@,
    }
}

impl SourceLocation {
    /// A location naming only a file.
    pub fn new(file: &str) -> (r: Self)
        ensures
            r.file@ == file@,
            r.line is None,
            r.column is None,
    {
        SourceLocation { file: owned(file), line: None, column: None }
    }

    /// Sets the line number.
    pub fn with_line(self, line: u32) -> (r: Self)
        ensures
            r.file == self.file,
            r.line == Some(line),
            r.column == self.column,
    {
        SourceLocation { line: Some(line), ..self }
    }

    /// Sets the column number.
    pub fn with_column(self, column: u32) -> (r: Self)
        ensures
            r.file == self.file,
            r.line == self.line,
            r.column == Some(column),
    {
        SourceLocation { column: Some(column), ..self }
    }

    /// Formats as `file:line:column`, `file:line` or `file`; a column is
    /// shown only together with a line.
    pub fn to_string(&self) -> (r: String)
        ensures
            r@ == location_text(*self),
    {
        let mut s = self.file.clone();
        match self.line {
            Some(line) => {
                s.append(":");
                let l = u64_to_dec(line as u64);
                s.append(l.as_str());
                match self.column {
                    Some(col) => {
                        s.append(":");
                        let c = u64_to_dec(col as u64);
                        s.append(c.as_str());
                    },
                    None => {
                        assert(s@ =~= s@ + Seq::<char>::empty());
                    },
                }
            },
            None => {},
        }
        s
    }
}

/// Detailed information about a detected error.
#[derive(Debug, Clone)]
pub struct ErrorInfo {
    /// Classification of the error.
    pub error_type: ErrorType,
    /// Exit code of the command.
    pub exit_code: i32,
    /// The most important part of the error message.
    pub key_message: String,
    /// The full error output.
    pub full_output: String,
    /// The command that was executed.
    pub command: String,
    /// Relevant context lines from the output.
    pub context_lines: Vec<String>,
    /// Source location, if one was detected.
    pub source_location: Option<SourceLocation>,
}

impl ErrorInfo {
    /// A new error description with no output, context or location.
    pub fn new(error_type: ErrorType, exit_code: i32, key_message: &str, command: &str) -> (r: Self)
        ensures
            r.error_type == error_type,
            r.exit_code == exit_code,
            r.key_message@ == key_message@,
            r.command@ == command@,
            r.full_output@.len() == 0,
            r.context_lines@.len() == 0,
            r.source_location is None,
    {
        ErrorInfo {
            error_type,
            exit_code,
            key_message: owned(key_message),
            full_output: String::new(),
            command: owned(command),
            context_lines: Vec::new(),
            source_location: None,
        }
    }

    /// Sets the full output.
    pub fn with_output(self, output: &str) -> (r: Self)
        ensures
            r.full_output@ == output@,
            r.error_type == self.error_type,
            r.exit_code == self.exit_code,
            r.key_message == self.key_message,
            r.command == self.command,
            r.context_lines == self.context_lines,
            r.source_location == self.source_location,
    {
        ErrorInfo { full_output: owned(output), ..self }
    }

    /// Sets the context lines.
    pub fn with_context(self, lines: Vec<String>) -> (r: Self)
        ensures
            r.context_lines == lines,
            r.error_type == self.error_type,
            r.exit_code == self.exit_code,
            r.key_message == self.key_message,
            r.full_output == self.full_output,
            r.command == self.command,
            r.source_location == self.source_location,
    {
        ErrorInfo { context_lines: lines, ..self }
    }

    /// Sets the source location.
    pub fn with_location(self, location: SourceLocation) -> (r: Self)
        ensures
            r.source_location == Some(location),
            r.error_type == self.error_type,
            r.exit_code == self.exit_code,
            r.key_message == self.key_message,
            r.full_output == self.full_output,
            r.command == self.command,
            r.context_lines == self.context_lines,
    {
        ErrorInfo { source_location: Some(location), ..self }
    }

    /// Whether the command was interrupted by the user (exit code 130).
    pub fn is_interrupt(&self) -> (b: bool)
        ensures
            b == (self.exit_code == 130),
    {
        self.exit_code == 130
    }

    /// Whether this is a real error: neither success nor an interrupt.
    pub fn is_real_error(&self) -> (b: bool)
        ensures
            b == (self.exit_code != 0 && self.exit_code != 130),
    {
        self.exit_code != 0 && self.exit_code != 130
    }
}

/// An exit code is a real error exactly when it is neither success nor an
/// interrupt; the two are never both true.
pub proof fn law_interrupt_is_not_real_error(code: i32)
    ensures
        !(code == 130 && (code != 0 && code != 130)),
        (code != 0 && code != 130) <==> !(code == 0 || code == 130),
{
}

} // verus!
