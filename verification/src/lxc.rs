use vstd::prelude::*;
use vstd::slice::slice_subrange;
use vstd::string::{StrSliceExecFns, StringExecFns, StringSliceAdditionalSpecFns};
use vstd::utf8::{decode_utf8, valid_utf8};

use crate::attach_options::AttachOptions;
use crate::codec;
use crate::cvec::{opt_bufs_view, raw_view, CStringVec};
use crate::error::Error;
use crate::heap::NativeHeap;
use crate::log_options::{self, LogOptions};
use crate::native::{
    fresh_array, iface_addrs, iface_names, names_under, next_block, CallRecord, NativeLayer,
};
use crate::strarray::{find_first_none, NativeStrArray, StringArrayIter};

verus! {

/// True when any of the texts holds an embedded NUL.
pub open spec fn any_has_nul(args: Seq<&str>) -> bool {
    exists|i: int| 0 <= i < args.len() && codec::has_nul((#[trigger] args[i]).spec_bytes())
}

/// The NUL-terminated encodings of the texts, in order.
pub open spec fn encoded_args(args: Seq<&str>) -> Seq<Seq<u8>> {
    args.map_values(|s: &str| codec::c_encoding(s.spec_bytes()))
}

/// Encode an argument list into an owned NUL-terminated buffer collection.
fn build_args(argv: &Vec<&str>) -> (r: Result<CStringVec, Error>)
    ensures
        !any_has_nul(argv@) ==> (r matches Ok(cv) && cv@ == encoded_args(argv@) && cv.wf()),
        any_has_nul(argv@) ==> (r matches Err(e) && e == Error::InvalidInput),
{
    let n = argv.len();
    let mut cv = CStringVec::new();
    let mut i: usize = 0;
    while i < n
        invariant
            0 <= i <= n,
            n == argv@.len(),
            cv.wf(),
            cv@.len() == i as int,
            forall|k: int|
                0 <= k < i ==> cv@[k] == codec::c_encoding((#[trigger] argv@[k]).spec_bytes()),
            forall|k: int| 0 <= k < i ==> !codec::has_nul((#[trigger] argv@[k]).spec_bytes()),
        decreases n - i,
    {
        match cv.push(argv[i]) {
            Ok(()) => {},
            Err(e) => {
                proof {
                    assert(codec::has_nul((#[trigger] argv@[i as int]).spec_bytes()));
                }
                return Err(e);
            },
        }
        i = i + 1;
    }
    proof {
        assert(cv@ =~= encoded_args(argv@));
        if any_has_nul(argv@) {
            let w = choose|w: int|
                0 <= w < argv@.len() && codec::has_nul((#[trigger] argv@[w]).spec_bytes());
            assert(!codec::has_nul(argv@[w].spec_bytes()));
        }
    }
    Ok(cv)
}

/// What an address enumeration leaves behind: the layer untouched but for
/// the heap; a sequence owning exactly the freshly transferred blocks when
/// the native call handed an array over, the empty sequence when it handed
/// NULL.
pub open spec fn ip_result(
    c: Lxc,
    pre: NativeLayer,
    post: NativeLayer,
    it: StringArrayIter,
    iface: Seq<u8>,
    v6: bool,
) -> bool {
    let j = c.cont(pre);
    let addrs = iface_addrs(pre.defs@[j].interfaces@, iface, v6);
    &&& it.wf(post.heap)
    &&& it.cursor() == 0
    &&& post.running == pre.running
    &&& post.acquire_count() == pre.acquire_count()
    &&& post.release_count() == pre.release_count()
    &&& post.handles == pre.handles
    &&& post.defs == pre.defs
    &&& post.calls == pre.calls
    &&& post.config == pre.config
    &&& post.version == pre.version
    &&& post.log_ok == pre.log_ok
    &&& post.enumerate_fails == pre.enumerate_fails
    &&& if pre.running@[j] && addrs.len() > 0 {
        &&& it.length() == addrs.len()
        &&& it.arr_id == Some(next_block(pre.heap, addrs.len() as int) as usize)
        &&& (forall|i: int|
            0 <= i < addrs.len() ==> post.heap.contents(it.entry_id(i)) == codec::c_encoding(
                addrs[i],
            ))
        &&& post.heap.block_count() == pre.heap.block_count() + addrs.len() + 1
        &&& post.heap.live_blocks() == pre.heap.live_blocks() + addrs.len() + 1
        &&& (forall|b: int|
            0 <= b < pre.heap.block_count() ==> post.heap.live(b) == pre.heap.live(b) && (
            pre.heap.live(b) ==> post.heap.contents(b) == pre.heap.contents(b)))
        &&& (forall|b: int| it.owns_block(b) ==> pre.heap.block_count() <= b)
    } else {
        it.length() == 0 && it.arr_id is None && post.heap == pre.heap
    }
}

/// Wrap a freshly transferred native string array in its owning sequence:
/// scan for the length as the NULL-terminated convention demands, then
/// take ownership of every transferred block.
fn wrap_fresh(
    arr: NativeStrArray,
    heap: &NativeHeap,
    Ghost(pre): Ghost<NativeHeap>,
    Ghost(texts): Ghost<Seq<Seq<u8>>>,
) -> (it: StringArrayIter)
    requires
        fresh_array(pre, *heap, Some(arr), texts),
    ensures
        it.wf(*heap),
        it.cursor() == 0,
        it.length() == texts.len(),
        forall|i: int|
            0 <= i < texts.len() ==> it.entry_id(i) == next_block(pre, i) && heap.contents(
                it.entry_id(i),
            ) == codec::c_encoding(texts[i]),
        it.arr_id == Some(next_block(pre, texts.len() as int) as usize),
        forall|b: int| it.owns_block(b) ==> pre.block_count() <= b,
{
    let ghost k = texts.len() as int;
    proof {
        assert(arr.entries@.take(arr.entries@.len() as int) =~= arr.entries@);
        crate::strarray::lemma_first_none_of_clean(arr.entries@, k);
    }
    let declared = find_first_none(&arr.entries, arr.entries.len());
    proof {
        assert(declared as int == k);
        assert(forall|j: int|
            0 <= j < k ==> arr.entries@.take(k)[j] == arr.entries@[j]);
        crate::strarray::lemma_first_none_of_clean(arr.entries@.take(k), k);
    }
    let it = StringArrayIter::new(arr, declared, heap);
    proof {
        assert forall|b: int| it.owns_block(b) implies pre.block_count() <= b by {
            if exists|i: int| it.cursor() <= i < it.length() && it.entry_id(i) == b {
                let w = choose|i: int|
                    it.cursor() <= i < it.length() && it.entry_id(i) == b;
                assert(it.entry_id(w) == next_block(pre, w));
            }
        }
    }
    it
}

/// The main container handle: it owns exactly one live native reference,
/// acquired by `new` and given back by exactly one `release`.
pub struct Lxc {
    handle: usize,
}

impl Lxc {
    /// The native handle id this reference holds.
    pub closed spec fn id(&self) -> int {
        self.handle as int
    }

    /// The handle's reference is live in `native`.
    pub open spec fn wf(&self, native: NativeLayer) -> bool {
        native.wf() && native.handle_live(self.id())
    }

    /// The container definition this handle references.
    pub open spec fn cont(&self, native: NativeLayer) -> int {
        native.handle_cont(self.id())
    }

    /// Resolve a native reference for the container of the given `name`
    /// under `path`.
    ///
    /// Text with an embedded NUL is rejected with `InvalidInput` before any
    /// native call. A null native handle — the pair is not defined — yields
    /// `NotFound`, and no reference was acquired, so none is ever released.
    /// On success exactly one reference has been acquired, and it is
    /// released exactly once, by `release`.
    pub fn new(name: &str, path: &str, native: &mut NativeLayer) -> (r: Result<Lxc, Error>)
        requires
            old(native).wf(),
        ensures
            final(native).wf(),
            codec::has_nul(name.spec_bytes()) || codec::has_nul(path.spec_bytes()) ==> (r matches
                Err(e) && e == Error::InvalidInput && *final(native) == *old(native)),
            !codec::has_nul(name.spec_bytes()) && !codec::has_nul(path.spec_bytes()) && !old(
                native,
            ).defines(path.spec_bytes(), name.spec_bytes()) ==> (r matches Err(e) && e
                == Error::NotFound && *final(native) == *old(native)),
            !codec::has_nul(name.spec_bytes()) && !codec::has_nul(path.spec_bytes()) && old(
                native,
            ).defines(path.spec_bytes(), name.spec_bytes()) ==> ({
                &&& r matches Ok(c)
                &&& c.wf(*final(native))
                &&& old(native).defs@[c.cont(*final(native))].path@ == path.spec_bytes()
                &&& old(native).defs@[c.cont(*final(native))].name@ == name.spec_bytes()
                &&& final(native).acquire_count() == old(native).acquire_count() + 1
                &&& final(native).release_count() == old(native).release_count()
                &&& final(native).defs == old(native).defs
                &&& final(native).running == old(native).running
                &&& final(native).calls == old(native).calls
                &&& final(native).config == old(native).config
                &&& final(native).version == old(native).version
                &&& final(native).log_ok == old(native).log_ok
                &&& final(native).enumerate_fails == old(native).enumerate_fails
                &&& final(native).heap == old(native).heap
            }),
    {
        let cname = match codec::to_c_string(name) {
            Ok(b) => b,
            Err(e) => {
                return Err(e);
            },
        };
        let cpath = match codec::to_c_string(path) {
            Ok(b) => b,
            Err(e) => {
                return Err(e);
            },
        };
        let name_bytes = slice_subrange(cname.as_slice(), 0, cname.len() - 1);
        let path_bytes = slice_subrange(cpath.as_slice(), 0, cpath.len() - 1);
        proof {
            assert(name_bytes@ =~= name.spec_bytes());
            assert(path_bytes@ =~= path.spec_bytes());
        }
        match native.acquire(name_bytes, path_bytes) {
            Some(h) => Ok(Lxc { handle: h }),
            None => Err(Error::NotFound),
        }
    }

    /// Release the native reference, exactly once: the handle is consumed,
    /// so no operation — and no second release — can follow.
    pub fn release(self, native: &mut NativeLayer)
        requires
            self.wf(*old(native)),
        ensures
            final(native).wf(),
            !final(native).handle_live(self.id()),
            final(native).release_count() == old(native).release_count() + 1,
            final(native).acquire_count() == old(native).acquire_count(),
            final(native).defs == old(native).defs,
            final(native).running == old(native).running,
            final(native).calls == old(native).calls,
            final(native).config == old(native).config,
            final(native).version == old(native).version,
            final(native).log_ok == old(native).log_ok,
            final(native).enumerate_fails == old(native).enumerate_fails,
            final(native).heap == old(native).heap,
            forall|h: int|
                h != self.id() ==> final(native).handle_live(h) == old(native).handle_live(h),
    {
        native.release(self.handle);
    }

    /// Whether the calling process may control the container; a pure
    /// capability query with no side effects.
    pub fn may_control(&self, native: &NativeLayer) -> (r: bool)
        requires
            self.wf(*native),
        ensures
            r == native.defs@[self.cont(*native)].controllable,
    {
        native.may_control(self.handle)
    }

    /// Check the capability and translate its failure: `PermissionDenied`
    /// exactly when the container may not be controlled.
    pub fn require_control(&self, native: &NativeLayer) -> (r: Result<(), Error>)
        requires
            self.wf(*native),
        ensures
            native.defs@[self.cont(*native)].controllable ==> r is Ok,
            !native.defs@[self.cont(*native)].controllable ==> (r matches Err(e) && e
                == Error::PermissionDenied),
    {
        if native.may_control(self.handle) {
            Ok(())
        } else {
            Err(Error::PermissionDenied)
        }
    }

    /// Whether the container is running; a pure status query.
    pub fn is_running(&self, native: &NativeLayer) -> (r: bool)
        requires
            self.wf(*native),
        ensures
            r == native.running@[self.cont(*native)],
    {
        native.is_running(self.handle)
    }

    /// The container's state string, decoded from the native report; an
    /// unrecognizable (undecodable) native string maps to the `UNKNOWN`
    /// sentinel rather than failing.
    pub fn state(&self, native: &NativeLayer) -> (r: String)
        requires
            self.wf(*native),
        ensures
            ({
                let sb = codec::c_content(native.defs@[self.cont(*native)].state_bytes@);
                if valid_utf8(sb) {
                    r@ == decode_utf8(sb)
                } else {
                    r@ == "UNKNOWN"@
                }
            }),
    {
        let bytes = native.state_bytes(self.handle);
        match codec::from_c_string(bytes.as_slice()) {
            Ok(s) => s,
            Err(_) => String::from_str("UNKNOWN"),
        }
    }

    /// Attempt to start the container. When `argv` is non-empty it is
    /// handed to the native call as the NULL-terminated override command
    /// line; when empty, NULL is handed over for "use the configured
    /// command". With `stub` set, the container's execute command is used
    /// instead of its init command.
    ///
    /// An argument with an embedded NUL is `InvalidInput`, before any
    /// native call; a false native result is `StartFailed`.
    pub fn start(&self, stub: bool, argv: Vec<&str>, native: &mut NativeLayer) -> (r: Result<
        (),
        Error,
    >)
        requires
            self.wf(*old(native)),
        ensures
            final(native).wf(),
            self.wf(*final(native)),
            self.cont(*final(native)) == self.cont(*old(native)),
            any_has_nul(argv@) ==> (r matches Err(e) && e == Error::InvalidInput && *final(native)
                == *old(native)),
            !any_has_nul(argv@) ==> ({
                let j = self.cont(*old(native));
                let started = !old(native).running@[j] && old(native).defs@[j].start_ok;
                &&& final(native).running@ == old(native).running@.update(
                    j,
                    old(native).running@[j] || started,
                )
                &&& final(native).calls@.len() == old(native).calls@.len() + 1
                &&& final(native).calls@.subrange(0, old(native).calls@.len() as int) == old(
                    native,
                ).calls@
                &&& (final(native).calls@.last() matches CallRecord::Start { use_init, argv: a }
                    && use_init == (if stub {
                    1i32
                } else {
                    0i32
                }) && (if argv@.len() == 0 {
                    a is None
                } else {
                    a matches Some(view) && opt_bufs_view(view@) == raw_view(encoded_args(argv@))
                }))
                &&& (started ==> r is Ok)
                &&& (!started ==> (r matches Err(e) && e == Error::StartFailed))
                &&& final(native).acquire_count() == old(native).acquire_count()
                &&& final(native).release_count() == old(native).release_count()
                &&& final(native).handles == old(native).handles
                &&& final(native).defs == old(native).defs
                &&& final(native).config == old(native).config
                &&& final(native).version == old(native).version
                &&& final(native).log_ok == old(native).log_ok
                &&& final(native).enumerate_fails == old(native).enumerate_fails
                &&& final(native).heap == old(native).heap
            }),
    {
        let use_init: i32 = if stub {
            1
        } else {
            0
        };
        let ok: bool;
        if argv.len() == 0 {
            ok = native.start(self.handle, use_init, None);
        } else {
            let cv = match build_args(&argv) {
                Ok(cv) => cv,
                Err(e) => {
                    return Err(e);
                },
            };
            let view = cv.get_raw();
            ok = native.start(self.handle, use_init, Some(view));
        }
        proof {
            assert(native.calls@.subrange(0, old(native).calls@.len() as int) =~= old(
                native,
            ).calls@);
        }
        if ok {
            Ok(())
        } else {
            Err(Error::StartFailed)
        }
    }

    /// Attempt to shut the container down within `timeout` seconds.
    ///
    /// `None` means wait indefinitely: the native call receives the `-1`
    /// sentinel. Seconds beyond the native signed-integer range are
    /// `InvalidArgument`, and no native call is issued. A false native
    /// result — timeout expiry included, which the native library does not
    /// distinguish — is `ShutdownFailed`.
    pub fn shutdown(&self, timeout: Option<u64>, native: &mut NativeLayer) -> (r: Result<
        (),
        Error,
    >)
        requires
            self.wf(*old(native)),
        ensures
            final(native).wf(),
            self.wf(*final(native)),
            self.cont(*final(native)) == self.cont(*old(native)),
            (timeout matches Some(secs) && secs > 0x7FFF_FFFF) ==> (r matches Err(e) && e
                == Error::InvalidArgument && *final(native) == *old(native)),
            (match timeout {
                Some(secs) => secs <= 0x7FFF_FFFF,
                None => true,
            }) ==> ({
                let t = (match timeout {
                    Some(secs) => secs as i32,
                    None => -1i32,
                });
                let j = self.cont(*old(native));
                let down = old(native).running@[j] && old(native).defs@[j].shutdown_ok;
                &&& final(native).calls@ == old(native).calls@.push(
                    CallRecord::Shutdown { timeout: t },
                )
                &&& final(native).running@ == old(native).running@.update(
                    j,
                    old(native).running@[j] && !down,
                )
                &&& (down ==> r is Ok)
                &&& (!down ==> (r matches Err(e) && e == Error::ShutdownFailed))
                &&& final(native).acquire_count() == old(native).acquire_count()
                &&& final(native).release_count() == old(native).release_count()
                &&& final(native).handles == old(native).handles
                &&& final(native).defs == old(native).defs
                &&& final(native).config == old(native).config
                &&& final(native).version == old(native).version
                &&& final(native).log_ok == old(native).log_ok
                &&& final(native).enumerate_fails == old(native).enumerate_fails
                &&& final(native).heap == old(native).heap
            }),
    {
        let t: i32 = match crate::args::shutdown_timeout(timeout) {
            Ok(t) => t,
            Err(e) => {
                return Err(e);
            },
        };
        let down = native.shutdown(self.handle, t);
        if down {
            Ok(())
        } else {
            Err(Error::ShutdownFailed)
        }
    }

    /// Attempt to stop the container forcefully, without a grace period.
    /// A false native result is `StopFailed`.
    pub fn stop(&self, native: &mut NativeLayer) -> (r: Result<(), Error>)
        requires
            self.wf(*old(native)),
        ensures
            final(native).wf(),
            self.wf(*final(native)),
            self.cont(*final(native)) == self.cont(*old(native)),
            ({
                let j = self.cont(*old(native));
                let stopped = old(native).running@[j] && old(native).defs@[j].stop_ok;
                &&& final(native).calls@ == old(native).calls@.push(CallRecord::Stop)
                &&& final(native).running@ == old(native).running@.update(
                    j,
                    old(native).running@[j] && !stopped,
                )
                &&& (stopped ==> r is Ok)
                &&& (!stopped ==> (r matches Err(e) && e == Error::StopFailed))
                &&& final(native).acquire_count() == old(native).acquire_count()
                &&& final(native).release_count() == old(native).release_count()
                &&& final(native).handles == old(native).handles
                &&& final(native).defs == old(native).defs
                &&& final(native).config == old(native).config
                &&& final(native).version == old(native).version
                &&& final(native).log_ok == old(native).log_ok
                &&& final(native).enumerate_fails == old(native).enumerate_fails
                &&& final(native).heap == old(native).heap
            }),
    {
        let stopped = native.stop(self.handle);
        if stopped {
            Ok(())
        } else {
            Err(Error::StopFailed)
        }
    }

    /// Run a program inside the container and wait for it: one blocking
    /// native call consuming the record finalized from `options`, the
    /// program, and the NULL-terminated argument array (by the underlying
    /// exec convention, callers repeat the program as the first argument).
    ///
    /// Text with an embedded NUL is `InvalidInput`, before any native
    /// call. Otherwise the native call's raw exit-status encoding is
    /// returned undecoded; decoding it is the caller's concern.
    pub fn attach_run_wait(
        &self,
        options: &AttachOptions,
        program: &str,
        argv: Vec<&str>,
        native: &mut NativeLayer,
    ) -> (r: Result<i32, Error>)
        requires
            self.wf(*old(native)),
            options.wf(),
        ensures
            final(native).wf(),
            self.wf(*final(native)),
            self.cont(*final(native)) == self.cont(*old(native)),
            codec::has_nul(program.spec_bytes()) || any_has_nul(argv@) ==> (r matches Err(e) && e
                == Error::InvalidInput && *final(native) == *old(native)),
            !codec::has_nul(program.spec_bytes()) && !any_has_nul(argv@) ==> ({
                let j = self.cont(*old(native));
                let status = if old(native).running@[j] {
                    old(native).defs@[j].attach_status
                } else {
                    -1i32
                };
                &&& r matches Ok(st) && st == status
                &&& final(native).calls@.len() == old(native).calls@.len() + 1
                &&& final(native).calls@.subrange(0, old(native).calls@.len() as int) == old(
                    native,
                ).calls@
                &&& (final(native).calls@.last() matches CallRecord::Attach {
                    record,
                    program: prog,
                    argv: a,
                } && crate::attach_options::renders(*options, record) && prog@
                    == codec::c_encoding(program.spec_bytes()) && opt_bufs_view(a@) == raw_view(
                    encoded_args(argv@),
                ))
                &&& final(native).running == old(native).running
                &&& final(native).acquire_count() == old(native).acquire_count()
                &&& final(native).release_count() == old(native).release_count()
                &&& final(native).handles == old(native).handles
                &&& final(native).defs == old(native).defs
                &&& final(native).config == old(native).config
                &&& final(native).version == old(native).version
                &&& final(native).log_ok == old(native).log_ok
                &&& final(native).enumerate_fails == old(native).enumerate_fails
                &&& final(native).heap == old(native).heap
            }),
    {
        let cprogram = match codec::to_c_string(program) {
            Ok(b) => b,
            Err(e) => {
                return Err(e);
            },
        };
        let cv = match build_args(&argv) {
            Ok(cv) => cv,
            Err(e) => {
                return Err(e);
            },
        };
        let view = cv.get_raw();
        let record = options.raw();
        let st = native.attach_run_wait(self.handle, record, cprogram, view);
        proof {
            assert(native.calls@.subrange(0, old(native).calls@.len() as int) =~= old(
                native,
            ).calls@);
        }
        Ok(st)
    }

    /// Attach the calling process's standard descriptors to the
    /// container's console: one native console call on tty number zero
    /// with standard input, output and error and the default escape
    /// character. A negative native result is `TerminalAttachFailed`.
    pub fn terminal(&self, native: &mut NativeLayer) -> (r: Result<(), Error>)
        requires
            self.wf(*old(native)),
        ensures
            final(native).wf(),
            self.wf(*final(native)),
            self.cont(*final(native)) == self.cont(*old(native)),
            ({
                let j = self.cont(*old(native));
                let ok = old(native).running@[j] && old(native).defs@[j].terminal_ok;
                &&& final(native).calls@ == old(native).calls@.push(
                    (CallRecord::Terminal {
                        ttynum: 0i32,
                        stdin_fd: 0i32,
                        stdout_fd: 1i32,
                        stderr_fd: 2i32,
                        escape: 1i32,
                    }),
                )
                &&& (ok ==> r is Ok)
                &&& (!ok ==> (r matches Err(e) && e == Error::TerminalAttachFailed))
                &&& final(native).running == old(native).running
                &&& final(native).acquire_count() == old(native).acquire_count()
                &&& final(native).release_count() == old(native).release_count()
                &&& final(native).handles == old(native).handles
                &&& final(native).defs == old(native).defs
                &&& final(native).config == old(native).config
                &&& final(native).version == old(native).version
                &&& final(native).log_ok == old(native).log_ok
                &&& final(native).enumerate_fails == old(native).enumerate_fails
                &&& final(native).heap == old(native).heap
            }),
    {
        let ret = native.console(self.handle, 0, 0, 1, 2, 1);
        if ret < 0 {
            Err(Error::TerminalAttachFailed)
        } else {
            Ok(())
        }
    }

    /// Enumerate the container's network interfaces as an
    /// ownership-transfer sequence over the native result.
    ///
    /// A NULL native result — the container is not running, or reports no
    /// interfaces — yields the empty sequence rather than an error.
    /// Otherwise the sequence owns exactly the freshly transferred blocks:
    /// one NUL-terminated name per interface, in native order, plus the
    /// array allocation; consuming and disposing of it frees each exactly
    /// once and returns the heap to its prior live count.
    pub fn get_interfaces(&self, native: &mut NativeLayer) -> (r: StringArrayIter)
        requires
            self.wf(*old(native)),
        ensures
            final(native).wf(),
            self.wf(*final(native)),
            self.cont(*final(native)) == self.cont(*old(native)),
            r.wf(final(native).heap),
            r.cursor() == 0,
            final(native).running == old(native).running,
            final(native).acquire_count() == old(native).acquire_count(),
            final(native).release_count() == old(native).release_count(),
            final(native).handles == old(native).handles,
            final(native).defs == old(native).defs,
            final(native).calls == old(native).calls,
            final(native).config == old(native).config,
            final(native).version == old(native).version,
            final(native).log_ok == old(native).log_ok,
            final(native).enumerate_fails == old(native).enumerate_fails,
            ({
                let j = self.cont(*old(native));
                let names = iface_names(old(native).defs@[j].interfaces@);
                if old(native).running@[j] && names.len() > 0 {
                    &&& r.length() == names.len()
                    &&& r.arr_id == Some(next_block(old(native).heap, names.len() as int) as usize)
                    &&& (forall|i: int|
                        0 <= i < names.len() ==> final(native).heap.contents(r.entry_id(i))
                            == codec::c_encoding(names[i]))
                    &&& final(native).heap.block_count() == old(native).heap.block_count()
                        + names.len() + 1
                    &&& final(native).heap.live_blocks() == old(native).heap.live_blocks()
                        + names.len() + 1
                    &&& (forall|b: int|
                        0 <= b < old(native).heap.block_count() ==> final(native).heap.live(b)
                            == old(native).heap.live(b) && (old(native).heap.live(b)
                            ==> final(native).heap.contents(b) == old(native).heap.contents(b)))
                    &&& (forall|b: int| r.owns_block(b) ==> old(native).heap.block_count() <= b)
                } else {
                    r.length() == 0 && r.arr_id is None && final(native).heap == old(native).heap
                }
            }),
    {
        let ghost j = self.cont(*old(native));
        let ghost names = iface_names(old(native).defs@[j].interfaces@);
        match native.list_interfaces(self.handle) {
            Some(arr) => wrap_fresh(arr, &native.heap, Ghost(old(native).heap), Ghost(names)),
            None => StringArrayIter::empty(),
        }
    }

    /// Enumerate one interface's IPv4 addresses as an ownership-transfer
    /// sequence; see `get_interfaces` for the transfer discipline. An
    /// interface name with an embedded NUL is `InvalidInput`; a NULL
    /// native result yields the empty sequence.
    pub fn get_ipv4(&self, interface: &str, native: &mut NativeLayer) -> (r: Result<
        StringArrayIter,
        Error,
    >)
        requires
            self.wf(*old(native)),
        ensures
            final(native).wf(),
            self.wf(*final(native)),
            self.cont(*final(native)) == self.cont(*old(native)),
            codec::has_nul(interface.spec_bytes()) ==> (r matches Err(e) && e
                == Error::InvalidInput && *final(native) == *old(native)),
            !codec::has_nul(interface.spec_bytes()) ==> (r matches Ok(it) && ip_result(
                *self,
                *old(native),
                *final(native),
                it,
                interface.spec_bytes(),
                false,
            )),
    {
        self.get_ips(interface, false, native)
    }

    /// Enumerate one interface's IPv6 addresses as an ownership-transfer
    /// sequence; see `get_interfaces` for the transfer discipline. An
    /// interface name with an embedded NUL is `InvalidInput`; a NULL
    /// native result yields the empty sequence.
    pub fn get_ipv6(&self, interface: &str, native: &mut NativeLayer) -> (r: Result<
        StringArrayIter,
        Error,
    >)
        requires
            self.wf(*old(native)),
        ensures
            final(native).wf(),
            self.wf(*final(native)),
            self.cont(*final(native)) == self.cont(*old(native)),
            codec::has_nul(interface.spec_bytes()) ==> (r matches Err(e) && e
                == Error::InvalidInput && *final(native) == *old(native)),
            !codec::has_nul(interface.spec_bytes()) ==> (r matches Ok(it) && ip_result(
                *self,
                *old(native),
                *final(native),
                it,
                interface.spec_bytes(),
                true,
            )),
    {
        self.get_ips(interface, true, native)
    }

    /// The shared address enumeration behind `get_ipv4` and `get_ipv6`.
    fn get_ips(&self, interface: &str, v6: bool, native: &mut NativeLayer) -> (r: Result<
        StringArrayIter,
        Error,
    >)
        requires
            self.wf(*old(native)),
        ensures
            final(native).wf(),
            self.wf(*final(native)),
            self.cont(*final(native)) == self.cont(*old(native)),
            codec::has_nul(interface.spec_bytes()) ==> (r matches Err(e) && e
                == Error::InvalidInput && *final(native) == *old(native)),
            !codec::has_nul(interface.spec_bytes()) ==> (r matches Ok(it) && ip_result(
                *self,
                *old(native),
                *final(native),
                it,
                interface.spec_bytes(),
                v6,
            )),
    {
        let ciface = match codec::to_c_string(interface) {
            Ok(b) => b,
            Err(e) => {
                return Err(e);
            },
        };
        let iface_bytes = slice_subrange(ciface.as_slice(), 0, ciface.len() - 1);
        proof {
            assert(iface_bytes@ =~= interface.spec_bytes());
        }
        let ghost j = self.cont(*old(native));
        let ghost addrs = iface_addrs(old(native).defs@[j].interfaces@, interface.spec_bytes(), v6);
        match native.list_ips(self.handle, iface_bytes, v6) {
            Some(arr) => Ok(wrap_fresh(arr, &native.heap, Ghost(old(native).heap), Ghost(addrs))),
            None => Ok(StringArrayIter::empty()),
        }
    }

    /// Set the pre-start daemonize flag; no native failure path exists.
    pub fn daemonize(&self, on: bool, native: &mut NativeLayer)
        requires
            self.wf(*old(native)),
        ensures
            final(native).wf(),
            self.wf(*final(native)),
            self.cont(*final(native)) == self.cont(*old(native)),
            final(native).handles@[self.id()].daemonize == on,
            final(native).acquire_count() == old(native).acquire_count(),
            final(native).release_count() == old(native).release_count(),
            final(native).defs == old(native).defs,
            final(native).running == old(native).running,
            final(native).calls == old(native).calls,
            final(native).config == old(native).config,
            final(native).version == old(native).version,
            final(native).log_ok == old(native).log_ok,
            final(native).enumerate_fails == old(native).enumerate_fails,
            final(native).heap == old(native).heap,
    {
        native.want_daemonize(self.handle, on);
    }
}

/// Enumerate the containers defined under `path` as an ownership-transfer
/// sequence of their names, in native report order (not guaranteed
/// sorted).
///
/// A path with an embedded NUL is `InvalidInput`; a negative native count
/// is `EnumerationFailed`. Otherwise the sequence owns exactly the
/// transferred blocks — one NUL-terminated name per container and, when
/// any were reported, the array allocation — and consuming and disposing
/// of it frees each exactly once.
pub fn list_all_containers(path: &str, native: &mut NativeLayer) -> (r: Result<
    StringArrayIter,
    Error,
>)
    requires
        old(native).wf(),
    ensures
        final(native).wf(),
        final(native).running == old(native).running,
        final(native).acquire_count() == old(native).acquire_count(),
        final(native).release_count() == old(native).release_count(),
        final(native).handles == old(native).handles,
        final(native).defs == old(native).defs,
        final(native).calls == old(native).calls,
        final(native).config == old(native).config,
        final(native).version == old(native).version,
        final(native).log_ok == old(native).log_ok,
        final(native).enumerate_fails == old(native).enumerate_fails,
        codec::has_nul(path.spec_bytes()) ==> (r matches Err(e) && e == Error::InvalidInput
            && *final(native) == *old(native)),
        !codec::has_nul(path.spec_bytes()) && old(native).enumerate_fails ==> (r matches Err(e)
            && e == Error::EnumerationFailed && final(native).heap == old(native).heap),
        !codec::has_nul(path.spec_bytes()) && !old(native).enumerate_fails ==> ({
            let names = names_under(old(native).defs@, path.spec_bytes());
            &&& r matches Ok(it)
            &&& it.wf(final(native).heap)
            &&& it.cursor() == 0
            &&& it.length() == names.len()
            &&& if names.len() > 0 {
                &&& it.arr_id == Some(next_block(old(native).heap, names.len() as int) as usize)
                &&& (forall|i: int|
                    0 <= i < names.len() ==> final(native).heap.contents(it.entry_id(i))
                        == codec::c_encoding(names[i]))
                &&& final(native).heap.block_count() == old(native).heap.block_count()
                    + names.len() + 1
                &&& final(native).heap.live_blocks() == old(native).heap.live_blocks()
                    + names.len() + 1
                &&& (forall|b: int|
                    0 <= b < old(native).heap.block_count() ==> final(native).heap.live(b)
                        == old(native).heap.live(b) && (old(native).heap.live(b)
                        ==> final(native).heap.contents(b) == old(native).heap.contents(b)))
                &&& (forall|b: int| it.owns_block(b) ==> old(native).heap.block_count() <= b)
            } else {
                it.arr_id is None && final(native).heap == old(native).heap
            }
        }),
{
    let cpath = match codec::to_c_string(path) {
        Ok(b) => b,
        Err(e) => {
            return Err(e);
        },
    };
    let path_bytes = slice_subrange(cpath.as_slice(), 0, cpath.len() - 1);
    proof {
        assert(path_bytes@ =~= path.spec_bytes());
    }
    let ghost names = names_under(old(native).defs@, path.spec_bytes());
    let (count, opt) = native.list_names(path_bytes);
    if count < 0 {
        return Err(Error::EnumerationFailed);
    }
    match opt {
        Some(arr) => Ok(wrap_fresh(arr, &native.heap, Ghost(old(native).heap), Ghost(names))),
        None => Ok(StringArrayIter::empty()),
    }
}

/// Initialize the native library's logging from the staged options: one
/// native call consuming the record finalized from `options`. A negative
/// native result is `LogInitFailed`.
pub fn set_log(options: &LogOptions, native: &mut NativeLayer) -> (r: Result<(), Error>)
    requires
        old(native).wf(),
    ensures
        final(native).wf(),
        final(native).calls@.len() == old(native).calls@.len() + 1,
        final(native).calls@.subrange(0, old(native).calls@.len() as int) == old(native).calls@,
        (final(native).calls@.last() matches CallRecord::LogInit { record }
            && log_options::renders(*options, record)),
        old(native).log_ok ==> r is Ok,
        !old(native).log_ok ==> (r matches Err(e) && e == Error::LogInitFailed),
        final(native).running == old(native).running,
        final(native).acquire_count() == old(native).acquire_count(),
        final(native).release_count() == old(native).release_count(),
        final(native).handles == old(native).handles,
        final(native).defs == old(native).defs,
        final(native).config == old(native).config,
        final(native).version == old(native).version,
        final(native).log_ok == old(native).log_ok,
        final(native).enumerate_fails == old(native).enumerate_fails,
        final(native).heap == old(native).heap,
{
    let record = options.raw();
    let ret = native.log_init(record);
    proof {
        assert(native.calls@.subrange(0, old(native).calls@.len() as int) =~= old(native).calls@);
    }
    if ret < 0 {
        Err(Error::LogInitFailed)
    } else {
        Ok(())
    }
}

/// The currently used native library version string; undecodable native
/// bytes map to `unknown`.
pub fn get_version(native: &NativeLayer) -> (r: String)
    ensures
        ({
            let vb = codec::c_content(native.version@);
            if valid_utf8(vb) {
                r@ == decode_utf8(vb)
            } else {
                r@ == "unknown"@
            }
        }),
{
    let bytes = native.get_version();
    match codec::from_c_string(bytes.as_slice()) {
        Ok(s) => s,
        Err(_) => String::from_str("unknown"),
    }
}

/// Look up one global configuration item by key.
///
/// A key with an embedded NUL is `InvalidInput`; an unknown key — the
/// native call yields NULL — is `ConfigKeyNotFound`; a value that does not
/// decode is `InvalidEncoding`. The native value is borrowed for the
/// process's lifetime, so nothing is freed here.
pub fn get_global_config_item(key: &str, native: &NativeLayer) -> (r: Result<String, Error>)
    requires
        native.wf(),
    ensures
        codec::has_nul(key.spec_bytes()) ==> (r matches Err(e) && e == Error::InvalidInput),
        !codec::has_nul(key.spec_bytes()) && !native.has_config(key.spec_bytes()) ==> (r matches
            Err(e) && e == Error::ConfigKeyNotFound),
        !codec::has_nul(key.spec_bytes()) && native.has_config(key.spec_bytes()) ==> ({
            let vb = codec::c_content(native.config_value(key.spec_bytes()));
            if valid_utf8(vb) {
                r matches Ok(s) && s@ == decode_utf8(vb)
            } else {
                r matches Err(e) && e == Error::InvalidEncoding
            }
        }),
{
    let ckey = match codec::to_c_string(key) {
        Ok(b) => b,
        Err(e) => {
            return Err(e);
        },
    };
    let key_bytes = slice_subrange(ckey.as_slice(), 0, ckey.len() - 1);
    proof {
        assert(key_bytes@ =~= key.spec_bytes());
    }
    match native.get_config(key_bytes) {
        Some(value) => codec::from_c_string(value.as_slice()),
        None => Err(Error::ConfigKeyNotFound),
    }
}

/// The native default container path: the `lxc.lxcpath` configuration
/// value, or the empty string when the lookup fails in any way.
pub fn get_default_path(native: &NativeLayer) -> (r: String)
    requires
        native.wf(),
    ensures
        ({
            let key = "lxc.lxcpath".spec_bytes();
            let vb = codec::c_content(native.config_value(key));
            if !codec::has_nul(key) && native.has_config(key) && valid_utf8(vb) {
                r@ == decode_utf8(vb)
            } else {
                r@ == Seq::<char>::empty()
            }
        }),
{
    match get_global_config_item("lxc.lxcpath", native) {
        Ok(s) => s,
        Err(_) => String::new(),
    }
}

} // verus!
