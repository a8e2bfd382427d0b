use vstd::prelude::*;
use vstd::slice::slice_to_vec;
use vstd::string::{StringExecFns, StringSliceAdditionalSpecFns};
use vstd::utf8::encode_utf8;

use crate::codec;
use crate::cvec::{opt_buf_view, opt_bufs_view, raw_view, CStringVec};
use crate::error::Error;

verus! {

/// Attach flag: move the attached process into the container's cgroup.
pub const LXC_ATTACH_MOVE_TO_CGROUP: i32 = 0x00000001;

/// Attach flag: drop capabilities not held inside the container.
pub const LXC_ATTACH_DROP_CAPABILITIES: i32 = 0x00000002;

/// Attach flag: set the execution domain to the container's.
pub const LXC_ATTACH_SET_PERSONALITY: i32 = 0x00000004;

/// Attach flag: apply the container's security-module exec profile.
pub const LXC_ATTACH_LSM_EXEC: i32 = 0x00000008;

/// Attach flag: remount proc and sys inside the attached namespaces.
pub const LXC_ATTACH_REMOUNT_PROC_SYS: i32 = 0x00010000;

/// Attach flag: apply the container's security-module profile immediately.
pub const LXC_ATTACH_LSM_NOW: i32 = 0x00020000;

/// Attach flag: forbid gaining new privileges.
pub const LXC_ATTACH_NO_NEW_PRIVS: i32 = 0x00040000;

/// Attach flag: allocate a terminal for the attached process.
pub const LXC_ATTACH_TERMINAL: i32 = 0x00080000;

/// The native default attach flags.
pub const LXC_ATTACH_DEFAULT: i32 = 0x0000FFFF;

/// Environment policy: keep the host environment.
pub const LXC_ATTACH_KEEP_ENV: u32 = 0;

/// Environment policy: start from a cleared environment.
pub const LXC_ATTACH_CLEAR_ENV: u32 = 1;

/// The bad-file-descriptor errno value; its negation marks an unset log
/// descriptor in the native record.
pub const EBADF: i32 = 9;

/// The descriptor value rendered for an unset log handle.
pub const LOG_FD_UNSET: i32 = -EBADF;

/// The selector value meaning "use the native default" for namespaces.
pub const NAMESPACES_DEFAULT: i32 = -1;

/// The selector value meaning "autodetect" for the execution domain.
pub const PERSONALITY_DEFAULT: i64 = -1;

/// The id value meaning "use the container's init id" for uid and gid.
pub const ID_DEFAULT: u32 = 0xFFFF_FFFF;

/// The staged attach configuration. Scalar fields carry explicit
/// use-default sentinels; text fields are owned NUL-terminated buffers; the
/// list fields are owned buffer collections; descriptor fields are `None`
/// until a caller supplies a borrowed handle's descriptor.
pub struct AttachOptions {
    /// Bitwise or of the attach flags.
    pub attach_flags: i32,
    /// Namespaces to attach to, or `NAMESPACES_DEFAULT`.
    pub namespaces: i32,
    /// Execution domain override, or `PERSONALITY_DEFAULT`.
    pub personality: i64,
    /// User id override, or `ID_DEFAULT`.
    pub uid: u32,
    /// Group id override, or `ID_DEFAULT`.
    pub gid: u32,
    /// `LXC_ATTACH_KEEP_ENV` or `LXC_ATTACH_CLEAR_ENV`.
    pub env_policy: u32,
    /// Working directory as an owned NUL-terminated buffer, if set.
    pub initial_cwd: Option<Vec<u8>>,
    /// Extra `KEY=VALUE` environment entries.
    pub extra_env_vars: CStringVec,
    /// Names of host environment variables to preserve.
    pub extra_keep_env: CStringVec,
    /// Borrowed standard-input descriptor, if set.
    pub stdin_fd: Option<i32>,
    /// Borrowed standard-output descriptor, if set.
    pub stdout_fd: Option<i32>,
    /// Borrowed standard-error descriptor, if set.
    pub stderr_fd: Option<i32>,
    /// Borrowed log descriptor, if set.
    pub log_fd: Option<i32>,
}

/// The transient native attach record. Scalar fields stand by value;
/// each pointer field stands by the content of the builder-owned storage it
/// designates (`None` for a NULL pointer), and each pointer-array field by
/// its NULL-terminated view.
#[derive(Debug, Clone, PartialEq, Eq)]
pub struct AttachRecord {
    pub attach_flags: i32,
    pub namespaces: i32,
    pub personality: i64,
    pub uid: u32,
    pub gid: u32,
    pub env_policy: u32,
    pub initial_cwd: Option<Vec<u8>>,
    pub extra_env_vars: Vec<Option<Vec<u8>>>,
    pub extra_keep_env: Vec<Option<Vec<u8>>>,
    pub stdin_fd: i32,
    pub stdout_fd: i32,
    pub stderr_fd: i32,
    pub log_fd: i32,
}

/// The record `raw` renders for builder state `b`: every field is a
/// function of the builder alone, so rendering is repeatable.
pub open spec fn renders(b: AttachOptions, r: AttachRecord) -> bool {
    &&& r.attach_flags == b.attach_flags
    &&& r.namespaces == b.namespaces
    &&& r.personality == b.personality
    &&& r.uid == b.uid
    &&& r.gid == b.gid
    &&& r.env_policy == b.env_policy
    &&& opt_buf_view(r.initial_cwd) == opt_buf_view(b.initial_cwd)
    &&& opt_bufs_view(r.extra_env_vars@) == raw_view(b.extra_env_vars@)
    &&& opt_bufs_view(r.extra_keep_env@) == raw_view(b.extra_keep_env@)
    &&& r.stdin_fd == (match b.stdin_fd {
        Some(fd) => fd,
        None => 0,
    })
    &&& r.stdout_fd == (match b.stdout_fd {
        Some(fd) => fd,
        None => 1,
    })
    &&& r.stderr_fd == (match b.stderr_fd {
        Some(fd) => fd,
        None => 2,
    })
    &&& r.log_fd == (match b.log_fd {
        Some(fd) => fd,
        None => LOG_FD_UNSET,
    })
}

/// The text of one `KEY=VALUE` environment entry.
pub open spec fn env_entry(name: Seq<char>, value: Seq<char>) -> Seq<char> {
    name + "="@ + value
}

impl AttachOptions {
    /// The owned buffers are well-formed C strings.
    pub open spec fn wf(&self) -> bool {
        &&& self.extra_env_vars.wf()
        &&& self.extra_keep_env.wf()
        &&& (self.initial_cwd matches Some(b) ==> codec::is_c_buffer(b@))
    }

    /// A builder with every field at its use-default sentinel.
    pub fn new() -> (r: AttachOptions)
        ensures
            r.attach_flags == LXC_ATTACH_DEFAULT,
            r.namespaces == NAMESPACES_DEFAULT,
            r.personality == PERSONALITY_DEFAULT,
            r.uid == ID_DEFAULT,
            r.gid == ID_DEFAULT,
            r.env_policy == LXC_ATTACH_KEEP_ENV,
            r.initial_cwd is None,
            r.extra_env_vars@.len() == 0,
            r.extra_keep_env@.len() == 0,
            r.stdin_fd is None,
            r.stdout_fd is None,
            r.stderr_fd is None,
            r.log_fd is None,
            r.wf(),
    {
        AttachOptions {
            attach_flags: LXC_ATTACH_DEFAULT,
            namespaces: NAMESPACES_DEFAULT,
            personality: PERSONALITY_DEFAULT,
            uid: ID_DEFAULT,
            gid: ID_DEFAULT,
            env_policy: LXC_ATTACH_KEEP_ENV,
            initial_cwd: None,
            extra_env_vars: CStringVec::new(),
            extra_keep_env: CStringVec::new(),
            stdin_fd: None,
            stdout_fd: None,
            stderr_fd: None,
            log_fd: None,
        }
    }

    /// Set or clear one attach flag bit.
    pub fn attach_flag(self, flag: i32, on: bool) -> (r: AttachOptions)
        ensures
            r == (AttachOptions {
                attach_flags: if on {
                    self.attach_flags | flag
                } else {
                    self.attach_flags & !flag
                },
                ..self
            }),
    {
        if on {
            AttachOptions { attach_flags: self.attach_flags | flag, ..self }
        } else {
            AttachOptions { attach_flags: self.attach_flags & !flag, ..self }
        }
    }

    /// Set or clear the move-to-cgroup flag.
    pub fn move_to_cgroup(self, on: bool) -> (r: AttachOptions)
        ensures
            r == (AttachOptions {
                attach_flags: if on {
                    self.attach_flags | LXC_ATTACH_MOVE_TO_CGROUP
                } else {
                    self.attach_flags & !LXC_ATTACH_MOVE_TO_CGROUP
                },
                ..self
            }),
    {
        self.attach_flag(LXC_ATTACH_MOVE_TO_CGROUP, on)
    }

    /// Set or clear the drop-capabilities flag.
    pub fn drop_capabilities(self, on: bool) -> (r: AttachOptions)
        ensures
            r == (AttachOptions {
                attach_flags: if on {
                    self.attach_flags | LXC_ATTACH_DROP_CAPABILITIES
                } else {
                    self.attach_flags & !LXC_ATTACH_DROP_CAPABILITIES
                },
                ..self
            }),
    {
        self.attach_flag(LXC_ATTACH_DROP_CAPABILITIES, on)
    }

    /// Set or clear the set-personality flag.
    pub fn set_personality(self, on: bool) -> (r: AttachOptions)
        ensures
            r == (AttachOptions {
                attach_flags: if on {
                    self.attach_flags | LXC_ATTACH_SET_PERSONALITY
                } else {
                    self.attach_flags & !LXC_ATTACH_SET_PERSONALITY
                },
                ..self
            }),
    {
        self.attach_flag(LXC_ATTACH_SET_PERSONALITY, on)
    }

    /// Set or clear the security-module exec flag.
    pub fn lsm_exec(self, on: bool) -> (r: AttachOptions)
        ensures
            r == (AttachOptions {
                attach_flags: if on {
                    self.attach_flags | LXC_ATTACH_LSM_EXEC
                } else {
                    self.attach_flags & !LXC_ATTACH_LSM_EXEC
                },
                ..self
            }),
    {
        self.attach_flag(LXC_ATTACH_LSM_EXEC, on)
    }

    /// Set or clear the remount-proc-sys flag.
    pub fn remount_proc_sys(self, on: bool) -> (r: AttachOptions)
        ensures
            r == (AttachOptions {
                attach_flags: if on {
                    self.attach_flags | LXC_ATTACH_REMOUNT_PROC_SYS
                } else {
                    self.attach_flags & !LXC_ATTACH_REMOUNT_PROC_SYS
                },
                ..self
            }),
    {
        self.attach_flag(LXC_ATTACH_REMOUNT_PROC_SYS, on)
    }

    /// Set or clear the security-module now flag.
    pub fn lsm_now(self, on: bool) -> (r: AttachOptions)
        ensures
            r == (AttachOptions {
                attach_flags: if on {
                    self.attach_flags | LXC_ATTACH_LSM_NOW
                } else {
                    self.attach_flags & !LXC_ATTACH_LSM_NOW
                },
                ..self
            }),
    {
        self.attach_flag(LXC_ATTACH_LSM_NOW, on)
    }

    /// Set or clear the no-new-privileges flag.
    pub fn no_new_privs(self, on: bool) -> (r: AttachOptions)
        ensures
            r == (AttachOptions {
                attach_flags: if on {
                    self.attach_flags | LXC_ATTACH_NO_NEW_PRIVS
                } else {
                    self.attach_flags & !LXC_ATTACH_NO_NEW_PRIVS
                },
                ..self
            }),
    {
        self.attach_flag(LXC_ATTACH_NO_NEW_PRIVS, on)
    }

    /// Set or clear the terminal flag.
    pub fn terminal(self, on: bool) -> (r: AttachOptions)
        ensures
            r == (AttachOptions {
                attach_flags: if on {
                    self.attach_flags | LXC_ATTACH_TERMINAL
                } else {
                    self.attach_flags & !LXC_ATTACH_TERMINAL
                },
                ..self
            }),
    {
        self.attach_flag(LXC_ATTACH_TERMINAL, on)
    }

    /// Select the namespaces to attach to.
    pub fn namespaces(self, v: i32) -> (r: AttachOptions)
        ensures
            r == (AttachOptions { namespaces: v, ..self }),
    {
        AttachOptions { namespaces: v, ..self }
    }

    /// Select the execution domain; `None` autodetects (the default).
    pub fn personality(self, v: Option<i64>) -> (r: AttachOptions)
        ensures
            r == (AttachOptions {
                personality: match v {
                    Some(p) => p,
                    None => PERSONALITY_DEFAULT,
                },
                ..self
            }),
    {
        match v {
            Some(p) => AttachOptions { personality: p, ..self },
            None => AttachOptions { personality: PERSONALITY_DEFAULT, ..self },
        }
    }

    /// Stage the initial working directory as an owned buffer.
    ///
    /// Fails with `InvalidInput` exactly when the path's bytes contain an
    /// embedded NUL; the builder is unchanged in that case.
    pub fn set_initial_cwd(self, v: &str) -> (r: Result<AttachOptions, Error>)
        ensures
            !codec::has_nul(v.spec_bytes()) ==> ({
                &&& r matches Ok(b)
                &&& b == (AttachOptions { initial_cwd: b.initial_cwd, ..self })
                &&& b.initial_cwd matches Some(buf)
                &&& buf@ == codec::c_encoding(v.spec_bytes())
            }),
            codec::has_nul(v.spec_bytes()) ==> (r matches Err(e) && e == Error::InvalidInput),
    {
        match codec::to_c_string(v) {
            Ok(buf) => Ok(AttachOptions { initial_cwd: Some(buf), ..self }),
            Err(e) => Err(e),
        }
    }

    /// Unset the initial working directory: the record will carry NULL.
    pub fn unset_initial_cwd(self) -> (r: AttachOptions)
        ensures
            r == (AttachOptions { initial_cwd: None, ..self }),
    {
        AttachOptions { initial_cwd: None, ..self }
    }

    /// Override the user id; `None` restores the use-default sentinel.
    pub fn uid(self, v: Option<u32>) -> (r: AttachOptions)
        ensures
            r == (AttachOptions {
                uid: match v {
                    Some(u) => u,
                    None => ID_DEFAULT,
                },
                ..self
            }),
    {
        match v {
            Some(u) => AttachOptions { uid: u, ..self },
            None => AttachOptions { uid: ID_DEFAULT, ..self },
        }
    }

    /// Override the group id; `None` restores the use-default sentinel.
    pub fn gid(self, v: Option<u32>) -> (r: AttachOptions)
        ensures
            r == (AttachOptions {
                gid: match v {
                    Some(g) => g,
                    None => ID_DEFAULT,
                },
                ..self
            }),
    {
        match v {
            Some(g) => AttachOptions { gid: g, ..self },
            None => AttachOptions { gid: ID_DEFAULT, ..self },
        }
    }

    /// Keep the host environment on attach.
    pub fn keep_env(self) -> (r: AttachOptions)
        ensures
            r == (AttachOptions { env_policy: LXC_ATTACH_KEEP_ENV, ..self }),
    {
        AttachOptions { env_policy: LXC_ATTACH_KEEP_ENV, ..self }
    }

    /// Clear the environment on attach.
    pub fn clear_env(self) -> (r: AttachOptions)
        ensures
            r == (AttachOptions { env_policy: LXC_ATTACH_CLEAR_ENV, ..self }),
    {
        AttachOptions { env_policy: LXC_ATTACH_CLEAR_ENV, ..self }
    }

    /// Choose the environment policy by flag.
    pub fn set_keep_env(self, on: bool) -> (r: AttachOptions)
        ensures
            r == (AttachOptions {
                env_policy: if on {
                    LXC_ATTACH_KEEP_ENV
                } else {
                    LXC_ATTACH_CLEAR_ENV
                },
                ..self
            }),
    {
        if on {
            self.keep_env()
        } else {
            self.clear_env()
        }
    }

    /// Borrow a standard-input descriptor for the one attach call.
    pub fn stdin(self, fd: i32) -> (r: AttachOptions)
        ensures
            r == (AttachOptions { stdin_fd: Some(fd), ..self }),
    {
        AttachOptions { stdin_fd: Some(fd), ..self }
    }

    /// Borrow a standard-output descriptor for the one attach call.
    pub fn stdout(self, fd: i32) -> (r: AttachOptions)
        ensures
            r == (AttachOptions { stdout_fd: Some(fd), ..self }),
    {
        AttachOptions { stdout_fd: Some(fd), ..self }
    }

    /// Borrow a standard-error descriptor for the one attach call.
    pub fn stderr(self, fd: i32) -> (r: AttachOptions)
        ensures
            r == (AttachOptions { stderr_fd: Some(fd), ..self }),
    {
        AttachOptions { stderr_fd: Some(fd), ..self }
    }

    /// Borrow a log descriptor for the one attach call.
    pub fn log_file(self, fd: i32) -> (r: AttachOptions)
        ensures
            r == (AttachOptions { log_fd: Some(fd), ..self }),
    {
        AttachOptions { log_fd: Some(fd), ..self }
    }

    /// Stage one extra `KEY=VALUE` environment entry, preserving order.
    ///
    /// Fails with `InvalidInput` exactly when the combined entry's bytes
    /// contain an embedded NUL; the builder is unchanged in that case.
    pub fn set_env_var(self, name: &str, value: &str) -> (r: Result<AttachOptions, Error>)
        requires
            self.wf(),
        ensures
            !codec::has_nul(encode_utf8(env_entry(name@, value@))) ==> (r matches Ok(b) && b == (
            AttachOptions { extra_env_vars: b.extra_env_vars, ..self }) && b.extra_env_vars@
                == self.extra_env_vars@.push(
                codec::c_encoding(encode_utf8(env_entry(name@, value@))),
            ) && b.wf()),
            codec::has_nul(encode_utf8(env_entry(name@, value@))) ==> (r matches Err(e) && e
                == Error::InvalidInput),
    {
        let mut entry = String::from_str(name);
        entry.append("=");
        entry.append(value);
        let AttachOptions {
            attach_flags,
            namespaces,
            personality,
            uid,
            gid,
            env_policy,
            initial_cwd,
            mut extra_env_vars,
            extra_keep_env,
            stdin_fd,
            stdout_fd,
            stderr_fd,
            log_fd,
        } = self;
        match extra_env_vars.push(entry.as_str()) {
            Ok(()) => Ok(
                AttachOptions {
                    attach_flags,
                    namespaces,
                    personality,
                    uid,
                    gid,
                    env_policy,
                    initial_cwd,
                    extra_env_vars,
                    extra_keep_env,
                    stdin_fd,
                    stdout_fd,
                    stderr_fd,
                    log_fd,
                },
            ),
            Err(e) => Err(e),
        }
    }

    /// Stage the name of one host environment variable to preserve.
    ///
    /// Fails with `InvalidInput` exactly when the name's bytes contain an
    /// embedded NUL; the builder is unchanged in that case.
    pub fn keep_env_var(self, name: &str) -> (r: Result<AttachOptions, Error>)
        requires
            self.wf(),
        ensures
            !codec::has_nul(name.spec_bytes()) ==> (r matches Ok(b) && b == (AttachOptions {
                extra_keep_env: b.extra_keep_env,
                ..self
            }) && b.extra_keep_env@ == self.extra_keep_env@.push(
                codec::c_encoding(name.spec_bytes()),
            ) && b.wf()),
            codec::has_nul(name.spec_bytes()) ==> (r matches Err(e) && e == Error::InvalidInput),
    {
        let AttachOptions {
            attach_flags,
            namespaces,
            personality,
            uid,
            gid,
            env_policy,
            initial_cwd,
            extra_env_vars,
            mut extra_keep_env,
            stdin_fd,
            stdout_fd,
            stderr_fd,
            log_fd,
        } = self;
        match extra_keep_env.push(name) {
            Ok(()) => Ok(
                AttachOptions {
                    attach_flags,
                    namespaces,
                    personality,
                    uid,
                    gid,
                    env_policy,
                    initial_cwd,
                    extra_env_vars,
                    extra_keep_env,
                    stdin_fd,
                    stdout_fd,
                    stderr_fd,
                    log_fd,
                },
            ),
            Err(e) => Err(e),
        }
    }

    /// Render the transient native record from the current state.
    ///
    /// Every pointer field of the record designates storage this builder
    /// owns (or a caller-supplied descriptor), never a temporary; the
    /// record is valid only for the one native call that follows and must
    /// not be retained. Rendering is repeatable: the record is a function
    /// of the builder state alone.
    pub fn raw(&self) -> (r: AttachRecord)
        requires
            self.wf(),
        ensures
            renders(*self, r),
    {
        let initial_cwd = match &self.initial_cwd {
            Some(buf) => Some(slice_to_vec(buf.as_slice())),
            None => None,
        };
        let stdin_fd = match self.stdin_fd {
            Some(fd) => fd,
            None => 0,
        };
        let stdout_fd = match self.stdout_fd {
            Some(fd) => fd,
            None => 1,
        };
        let stderr_fd = match self.stderr_fd {
            Some(fd) => fd,
            None => 2,
        };
        let log_fd = match self.log_fd {
            Some(fd) => fd,
            None => LOG_FD_UNSET,
        };
        AttachRecord {
            attach_flags: self.attach_flags,
            namespaces: self.namespaces,
            personality: self.personality,
            uid: self.uid,
            gid: self.gid,
            env_policy: self.env_policy,
            initial_cwd,
            extra_env_vars: self.extra_env_vars.get_raw(),
            extra_keep_env: self.extra_keep_env.get_raw(),
            stdin_fd,
            stdout_fd,
            stderr_fd,
            log_fd,
        }
    }
}

/// Law: rendering the record twice from one unmodified builder yields
/// records with identical field values — the same flags, and pointer
/// targets equal by content (the native addresses would differ).
pub proof fn lemma_raw_repeatable(b: AttachOptions, r1: AttachRecord, r2: AttachRecord)
    requires
        renders(b, r1),
        renders(b, r2),
    ensures
        r1.attach_flags == r2.attach_flags,
        r1.namespaces == r2.namespaces,
        r1.personality == r2.personality,
        r1.uid == r2.uid,
        r1.gid == r2.gid,
        r1.env_policy == r2.env_policy,
        opt_buf_view(r1.initial_cwd) == opt_buf_view(r2.initial_cwd),
        opt_bufs_view(r1.extra_env_vars@) == opt_bufs_view(r2.extra_env_vars@),
        opt_bufs_view(r1.extra_keep_env@) == opt_bufs_view(r2.extra_keep_env@),
        r1.stdin_fd == r2.stdin_fd,
        r1.stdout_fd == r2.stdout_fd,
        r1.stderr_fd == r2.stderr_fd,
        r1.log_fd == r2.log_fd,
{
}

} // verus!
