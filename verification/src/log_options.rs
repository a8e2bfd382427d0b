use vstd::prelude::*;
use vstd::slice::slice_to_vec;
use vstd::string::StringSliceAdditionalSpecFns;

use crate::codec;
use crate::cvec::opt_buf_view;
use crate::error::Error;

verus! {

/// The staged logging configuration: name, path, output file, level and
/// prefix as owned NUL-terminated buffers, plus the quiet flag.
pub struct LogOptions {
    /// Log name, if set.
    pub name: Option<Vec<u8>>,
    /// Container path, if set.
    pub path: Option<Vec<u8>>,
    /// Log file path, if set.
    pub file: Option<Vec<u8>>,
    /// Log level name, if set.
    pub level: Option<Vec<u8>>,
    /// Message prefix, if set.
    pub prefix: Option<Vec<u8>>,
    /// Suppress console output.
    pub quiet: bool,
}

/// The transient native log record: each pointer field stands by the
/// content of the builder-owned buffer it designates (`None` for NULL).
#[derive(Debug, Clone, PartialEq, Eq)]
pub struct LogRecord {
    pub name: Option<Vec<u8>>,
    pub path: Option<Vec<u8>>,
    pub file: Option<Vec<u8>>,
    pub level: Option<Vec<u8>>,
    pub prefix: Option<Vec<u8>>,
    pub quiet: bool,
}

/// The record `raw` renders for builder state `b`: every field is a
/// function of the builder alone, so rendering is repeatable.
pub open spec fn renders(b: LogOptions, r: LogRecord) -> bool {
    &&& opt_buf_view(r.name) == opt_buf_view(b.name)
    &&& opt_buf_view(r.path) == opt_buf_view(b.path)
    &&& opt_buf_view(r.file) == opt_buf_view(b.file)
    &&& opt_buf_view(r.level) == opt_buf_view(b.level)
    &&& opt_buf_view(r.prefix) == opt_buf_view(b.prefix)
    &&& r.quiet == b.quiet
}

impl LogOptions {
    /// The owned buffers are well-formed C strings.
    pub open spec fn wf(&self) -> bool {
        &&& (self.name matches Some(b) ==> codec::is_c_buffer(b@))
        &&& (self.path matches Some(b) ==> codec::is_c_buffer(b@))
        &&& (self.file matches Some(b) ==> codec::is_c_buffer(b@))
        &&& (self.level matches Some(b) ==> codec::is_c_buffer(b@))
        &&& (self.prefix matches Some(b) ==> codec::is_c_buffer(b@))
    }

    /// A builder with no buffers staged and console output suppressed.
    pub fn new() -> (r: LogOptions)
        ensures
            r.name is None,
            r.path is None,
            r.file is None,
            r.level is None,
            r.prefix is None,
            r.quiet == true,
            r.wf(),
    {
        LogOptions { name: None, path: None, file: None, level: None, prefix: None, quiet: true }
    }

    /// Stage the log name.
    ///
    /// Fails with `InvalidInput` exactly when the text's bytes contain an
    /// embedded NUL.
    pub fn set_log_name(self, v: &str) -> (r: Result<LogOptions, Error>)
        ensures
            !codec::has_nul(v.spec_bytes()) ==> ({
                &&& r matches Ok(b)
                &&& b == (LogOptions { name: b.name, ..self })
                &&& b.name matches Some(buf)
                &&& buf@ == codec::c_encoding(v.spec_bytes())
            }),
            codec::has_nul(v.spec_bytes()) ==> (r matches Err(e) && e == Error::InvalidInput),
    {
        match codec::to_c_string(v) {
            Ok(buf) => Ok(LogOptions { name: Some(buf), ..self }),
            Err(e) => Err(e),
        }
    }

    /// Stage the container path.
    ///
    /// Fails with `InvalidInput` exactly when the text's bytes contain an
    /// embedded NUL.
    pub fn set_log_path(self, v: &str) -> (r: Result<LogOptions, Error>)
        ensures
            !codec::has_nul(v.spec_bytes()) ==> ({
                &&& r matches Ok(b)
                &&& b == (LogOptions { path: b.path, ..self })
                &&& b.path matches Some(buf)
                &&& buf@ == codec::c_encoding(v.spec_bytes())
            }),
            codec::has_nul(v.spec_bytes()) ==> (r matches Err(e) && e == Error::InvalidInput),
    {
        match codec::to_c_string(v) {
            Ok(buf) => Ok(LogOptions { path: Some(buf), ..self }),
            Err(e) => Err(e),
        }
    }

    /// Stage the log file path.
    ///
    /// Fails with `InvalidInput` exactly when the text's bytes contain an
    /// embedded NUL.
    pub fn set_log_file(self, v: &str) -> (r: Result<LogOptions, Error>)
        ensures
            !codec::has_nul(v.spec_bytes()) ==> ({
                &&& r matches Ok(b)
                &&& b == (LogOptions { file: b.file, ..self })
                &&& b.file matches Some(buf)
                &&& buf@ == codec::c_encoding(v.spec_bytes())
            }),
            codec::has_nul(v.spec_bytes()) ==> (r matches Err(e) && e == Error::InvalidInput),
    {
        match codec::to_c_string(v) {
            Ok(buf) => Ok(LogOptions { file: Some(buf), ..self }),
            Err(e) => Err(e),
        }
    }

    /// Stage the log level name.
    ///
    /// Fails with `InvalidInput` exactly when the text's bytes contain an
    /// embedded NUL.
    pub fn set_log_level(self, v: &str) -> (r: Result<LogOptions, Error>)
        ensures
            !codec::has_nul(v.spec_bytes()) ==> ({
                &&& r matches Ok(b)
                &&& b == (LogOptions { level: b.level, ..self })
                &&& b.level matches Some(buf)
                &&& buf@ == codec::c_encoding(v.spec_bytes())
            }),
            codec::has_nul(v.spec_bytes()) ==> (r matches Err(e) && e == Error::InvalidInput),
    {
        match codec::to_c_string(v) {
            Ok(buf) => Ok(LogOptions { level: Some(buf), ..self }),
            Err(e) => Err(e),
        }
    }

    /// Stage the message prefix.
    ///
    /// Fails with `InvalidInput` exactly when the text's bytes contain an
    /// embedded NUL.
    pub fn set_log_prefix(self, v: &str) -> (r: Result<LogOptions, Error>)
        ensures
            !codec::has_nul(v.spec_bytes()) ==> ({
                &&& r matches Ok(b)
                &&& b == (LogOptions { prefix: b.prefix, ..self })
                &&& b.prefix matches Some(buf)
                &&& buf@ == codec::c_encoding(v.spec_bytes())
            }),
            codec::has_nul(v.spec_bytes()) ==> (r matches Err(e) && e == Error::InvalidInput),
    {
        match codec::to_c_string(v) {
            Ok(buf) => Ok(LogOptions { prefix: Some(buf), ..self }),
            Err(e) => Err(e),
        }
    }

    /// Choose whether console output is suppressed.
    pub fn set_quiet(self, quiet: bool) -> (r: LogOptions)
        ensures
            r == (LogOptions { quiet, ..self }),
    {
        LogOptions { quiet, ..self }
    }

    /// Render the transient native record from the current state.
    ///
    /// Every pointer field of the record designates a buffer this builder
    /// owns, never a temporary; the record is valid only for the one native
    /// call that follows and must not be retained. Rendering is repeatable:
    /// the record is a function of the builder state alone.
    pub fn raw(&self) -> (r: LogRecord)
        ensures
            renders(*self, r),
    {
        LogRecord {
            name: copy_opt(&self.name),
            path: copy_opt(&self.path),
            file: copy_opt(&self.file),
            level: copy_opt(&self.level),
            prefix: copy_opt(&self.prefix),
            quiet: self.quiet,
        }
    }
}

impl Default for LogOptions {
    /// The default builder: `new`.
    fn default() -> (r: LogOptions)
        ensures
            r.name is None,
            r.path is None,
            r.file is None,
            r.level is None,
            r.prefix is None,
            r.quiet == true,
            r.wf(),
    {
        LogOptions::new()
    }
}

/// Copy an optional buffer by content.
fn copy_opt(o: &Option<Vec<u8>>) -> (r: Option<Vec<u8>>)
    ensures
        opt_buf_view(r) == opt_buf_view(*o),
{
    match o {
        Some(b) => Some(slice_to_vec(b.as_slice())),
        None => None,
    }
}

/// Law: rendering the record twice from one unmodified builder yields
/// records with identical field values — pointer targets equal by content
/// (the native addresses would differ), and the same quiet flag.
pub proof fn lemma_raw_repeatable(b: LogOptions, r1: LogRecord, r2: LogRecord)
    requires
        renders(b, r1),
        renders(b, r2),
    ensures
        opt_buf_view(r1.name) == opt_buf_view(r2.name),
        opt_buf_view(r1.path) == opt_buf_view(r2.path),
        opt_buf_view(r1.file) == opt_buf_view(r2.file),
        opt_buf_view(r1.level) == opt_buf_view(r2.level),
        opt_buf_view(r1.prefix) == opt_buf_view(r2.prefix),
        r1.quiet == r2.quiet,
{
}

} // verus!
