use vstd::prelude::*;
use vstd::slice::slice_to_vec;
use vstd::string::StringSliceAdditionalSpecFns;
use vstd::string::StrSliceExecFns;

use crate::attach_options::AttachRecord;
use crate::codec;
use crate::heap::NativeHeap;
use crate::log_options::LogRecord;
use crate::strarray::NativeStrArray;

verus! {

/// One network interface a container reports, with its addresses.
pub struct InterfaceDef {
    /// Interface name bytes.
    pub name: Vec<u8>,
    /// IPv4 addresses, in report order.
    pub ipv4: Vec<Vec<u8>>,
    /// IPv6 addresses, in report order.
    pub ipv6: Vec<Vec<u8>>,
}

impl InterfaceDef {
    /// An interface of the given name with no addresses yet.
    pub fn new(name: &str) -> (r: InterfaceDef)
        ensures
            r.name@ == name.spec_bytes(),
            r.ipv4@.len() == 0,
            r.ipv6@.len() == 0,
    {
        InterfaceDef { name: name.as_bytes_vec(), ipv4: Vec::new(), ipv6: Vec::new() }
    }
}

/// One container definition the native layer knows, with the behavior it
/// will exhibit: whether operations succeed, what state string and exit
/// status it reports, and its interfaces.
pub struct ContainerDef {
    /// The definition path the container lives under.
    pub path: Vec<u8>,
    /// The container's name bytes.
    pub name: Vec<u8>,
    /// Whether the calling process may control the container.
    pub controllable: bool,
    /// The raw state string the native side reports.
    pub state_bytes: Vec<u8>,
    /// Whether a start attempt on a stopped container succeeds.
    pub start_ok: bool,
    /// Whether a stop attempt on a running container succeeds.
    pub stop_ok: bool,
    /// Whether a shutdown attempt on a running container succeeds.
    pub shutdown_ok: bool,
    /// The raw exit-status encoding an attach call reports.
    pub attach_status: i32,
    /// Whether a console attach on a running container succeeds.
    pub terminal_ok: bool,
    /// The container's network interfaces.
    pub interfaces: Vec<InterfaceDef>,
}

impl ContainerDef {
    /// A controllable, stopped container under `path` named `name`, whose
    /// operations all succeed.
    pub fn new(path: &str, name: &str) -> (r: ContainerDef)
        ensures
            r.path@ == path.spec_bytes(),
            r.name@ == name.spec_bytes(),
            r.controllable,
            r.state_bytes@ == "STOPPED".spec_bytes(),
            r.start_ok,
            r.stop_ok,
            r.shutdown_ok,
            r.attach_status == 0,
            r.terminal_ok,
            r.interfaces@.len() == 0,
    {
        let state: &str = "STOPPED";
        ContainerDef {
            path: path.as_bytes_vec(),
            name: name.as_bytes_vec(),
            controllable: true,
            state_bytes: state.as_bytes_vec(),
            start_ok: true,
            stop_ok: true,
            shutdown_ok: true,
            attach_status: 0,
            terminal_ok: true,
            interfaces: Vec::new(),
        }
    }
}

/// One acquired native handle: which container it references, whether it
/// has been released, and its pre-start daemonize flag.
#[derive(Clone, Copy, Debug, PartialEq, Eq, Structural)]
pub struct HandleEntry {
    /// Index of the referenced container definition.
    pub cont: usize,
    /// True once the reference has been released.
    pub released: bool,
    /// The pre-start daemonize flag.
    pub daemonize: bool,
}

/// One native call as the layer records it, scalar arguments by value and
/// pointer arguments by the content they designated. A consumed transient
/// record is moved in whole, so it cannot serve a second call.
pub enum CallRecord {
    /// A start call: the use-execute selector, and the override command
    /// line, `None` when NULL was passed for "use the configured command".
    Start { use_init: i32, argv: Option<Vec<Option<Vec<u8>>>> },
    /// A shutdown call with the timeout handed to the native side.
    Shutdown { timeout: i32 },
    /// A forceful stop call.
    Stop,
    /// An attach call: the finalized record, the program, and the argument
    /// array.
    Attach { record: AttachRecord, program: Vec<u8>, argv: Vec<Option<Vec<u8>>> },
    /// A console attach call, with the tty number, the three standard
    /// descriptors and the escape character handed to the native side.
    Terminal { ttynum: i32, stdin_fd: i32, stdout_fd: i32, stderr_fd: i32, escape: i32 },
    /// A log initialization call consuming the finalized record.
    LogInit { record: LogRecord },
}

/// One global configuration item.
pub struct ConfigItem {
    /// The item's key bytes.
    pub key: Vec<u8>,
    /// The item's value bytes.
    pub value: Vec<u8>,
}

/// The modeled native container library: its allocator, its container
/// definitions and their running state, its handle table — off which the
/// acquire and release counts are read — its global configuration, and a
/// log of the calls made into it. Verification against this model is what
/// the contracts of the handle and sequence types mean; a fake built from
/// it drives the tests.
pub struct NativeLayer {
    /// The native allocator.
    pub heap: NativeHeap,
    /// The container definitions, in definition order.
    pub defs: Vec<ContainerDef>,
    /// Whether each container is running, parallel to `defs`.
    pub running: Vec<bool>,
    /// Every handle ever acquired; the acquire and release counts are
    /// read off this table.
    pub handles: Vec<HandleEntry>,
    /// The calls made, in order.
    pub calls: Vec<CallRecord>,
    /// Global configuration items.
    pub config: Vec<ConfigItem>,
    /// The library version string bytes.
    pub version: Vec<u8>,
    /// Whether log initialization succeeds.
    pub log_ok: bool,
    /// When set, container enumeration reports failure.
    pub enumerate_fails: bool,
}

impl NativeLayer {
    /// The layer's structural invariant: the running list is parallel to
    /// the definitions, small enough to count in a native integer, each
    /// handle points at a definition, and definitions and configuration
    /// keys are unambiguous.
    pub open spec fn wf(&self) -> bool {
        &&& self.running@.len() == self.defs@.len()
        &&& self.defs@.len() < 0x8000_0000
        &&& forall|h: int|
            0 <= h < self.handles@.len() ==> (#[trigger] self.handles@[h]).cont
                < self.defs@.len()
        &&& forall|i: int, j: int|
            0 <= i < j < self.defs@.len() ==> !((#[trigger] self.defs@[i]).path@
                == (#[trigger] self.defs@[j]).path@ && self.defs@[i].name@ == self.defs@[j].name@)
        &&& forall|i: int, j: int|
            0 <= i < j < self.config@.len() ==> (#[trigger] self.config@[i]).key@
                != (#[trigger] self.config@[j]).key@
    }

    /// True while handle `h` is acquired and not yet released.
    pub open spec fn handle_live(&self, h: int) -> bool {
        0 <= h < self.handles@.len() && !self.handles@[h].released
    }

    /// The container definition index handle `h` references.
    pub open spec fn handle_cont(&self, h: int) -> int {
        self.handles@[h].cont as int
    }

    /// How many handle references have ever been acquired: one table
    /// entry per acquire.
    pub open spec fn acquire_count(&self) -> int {
        self.handles@.len() as int
    }

    /// How many of those references have been released.
    pub open spec fn release_count(&self) -> int {
        count_released(self.handles@) as int
    }

    /// True when a container named `name` is defined under `path`.
    pub open spec fn defines(&self, path: Seq<u8>, name: Seq<u8>) -> bool {
        exists|i: int|
            0 <= i < self.defs@.len() && (#[trigger] self.defs@[i]).path@ == path
                && self.defs@[i].name@ == name
    }

    /// True when `key` is a known configuration key.
    pub open spec fn has_config(&self, key: Seq<u8>) -> bool {
        exists|i: int| 0 <= i < self.config@.len() && (#[trigger] self.config@[i]).key@ == key
    }

    /// The value bytes of the configuration item keyed `key`; keys are
    /// unambiguous under `wf`.
    pub open spec fn config_value(&self, key: Seq<u8>) -> Seq<u8> {
        let i = choose|i: int|
            0 <= i < self.config@.len() && (#[trigger] self.config@[i]).key@ == key;
        self.config@[i].value@
    }

    /// An empty layer: no definitions, no handles, no calls, an empty
    /// version string, log initialization succeeding and enumeration
    /// working.
    pub fn new() -> (r: NativeLayer)
        ensures
            r.wf(),
            r.defs@.len() == 0,
            r.handles@.len() == 0,
            r.acquire_count() == 0,
            r.release_count() == 0,
            r.calls@.len() == 0,
            r.config@.len() == 0,
            r.version@.len() == 0,
            r.log_ok,
            !r.enumerate_fails,
            r.heap.block_count() == 0,
            r.heap.live_blocks() == 0,
    {
        NativeLayer {
            heap: NativeHeap::new(),
            defs: Vec::new(),
            running: Vec::new(),
            handles: Vec::new(),
            calls: Vec::new(),
            config: Vec::new(),
            version: Vec::new(),
            log_ok: true,
            enumerate_fails: false,
        }
    }

    /// Add a container definition, initially stopped. The definition must
    /// not duplicate an existing `(path, name)` pair.
    pub fn add_container(&mut self, def: ContainerDef) -> (r: usize)
        requires
            old(self).wf(),
            !old(self).defines(def.path@, def.name@),
            old(self).defs@.len() + 1 < 0x8000_0000,
        ensures
            final(self).wf(),
            r as int == old(self).defs@.len(),
            final(self).defs@ == old(self).defs@.push(def),
            final(self).running@ == old(self).running@.push(false),
            final(self).handles == old(self).handles,
            final(self).acquire_count() == old(self).acquire_count(),
            final(self).release_count() == old(self).release_count(),
            final(self).calls == old(self).calls,
            final(self).config == old(self).config,
            final(self).version == old(self).version,
            final(self).log_ok == old(self).log_ok,
            final(self).enumerate_fails == old(self).enumerate_fails,
            final(self).heap == old(self).heap,
    {
        let r = self.defs.len();
        self.defs.push(def);
        self.running.push(false);
        proof {
            assert forall|i: int, j: int|
                0 <= i < j < self.defs@.len() implies !((#[trigger] self.defs@[i]).path@
                == (#[trigger] self.defs@[j]).path@ && self.defs@[i].name@
                == self.defs@[j].name@) by {
                if j == self.defs@.len() - 1 {
                    assert(self.defs@[i] == old(self).defs@[i]);
                    if self.defs@[i].path@ == def.path@ && self.defs@[i].name@ == def.name@ {
                        assert(old(self).defines(def.path@, def.name@));
                    }
                } else {
                    assert(self.defs@[i] == old(self).defs@[i]);
                    assert(self.defs@[j] == old(self).defs@[j]);
                }
            }
        }
        r
    }

    /// Add a global configuration item under a fresh key.
    pub fn add_config(&mut self, key: &str, value: &str)
        requires
            old(self).wf(),
            !old(self).has_config(key.spec_bytes()),
        ensures
            final(self).wf(),
            final(self).config@.len() == old(self).config@.len() + 1,
            final(self).config@[old(self).config@.len() as int].key@ == key.spec_bytes(),
            final(self).config@[old(self).config@.len() as int].value@ == value.spec_bytes(),
            forall|i: int|
                0 <= i < old(self).config@.len() ==> final(self).config@[i] == old(
                    self,
                ).config@[i],
            final(self).defs == old(self).defs,
            final(self).running == old(self).running,
            final(self).handles == old(self).handles,
            final(self).acquire_count() == old(self).acquire_count(),
            final(self).release_count() == old(self).release_count(),
            final(self).calls == old(self).calls,
            final(self).version == old(self).version,
            final(self).log_ok == old(self).log_ok,
            final(self).enumerate_fails == old(self).enumerate_fails,
            final(self).heap == old(self).heap,
    {
        let item = ConfigItem { key: key.as_bytes_vec(), value: value.as_bytes_vec() };
        self.config.push(item);
        proof {
            assert forall|i: int, j: int|
                0 <= i < j < self.config@.len() implies (#[trigger] self.config@[i]).key@
                != (#[trigger] self.config@[j]).key@ by {
                if j == self.config@.len() - 1 {
                    assert(self.config@[i] == old(self).config@[i]);
                    if self.config@[i].key@ == key.spec_bytes() {
                        assert(old(self).has_config(key.spec_bytes()));
                    }
                } else {
                    assert(self.config@[i] == old(self).config@[i]);
                    assert(self.config@[j] == old(self).config@[j]);
                }
            }
        }
    }

    /// Acquire a handle for the container named `name` under `path`, as
    /// the native lookup call does.
    ///
    /// When the pair is defined, a reference is acquired: exactly one new
    /// live handle exists and the acquire counter moves by one. When it is
    /// not, the call returns `None` and the layer is untouched — no
    /// reference was acquired, so none will ever need releasing.
    pub fn acquire(&mut self, name: &[u8], path: &[u8]) -> (r: Option<usize>)
        requires
            old(self).wf(),
        ensures
            final(self).wf(),
            !old(self).defines(path@, name@) ==> r is None && *final(self) == *old(self),
            old(self).defines(path@, name@) ==> ({
                &&& r matches Some(h)
                &&& h as int == old(self).handles@.len()
                &&& final(self).handle_live(h as int)
                &&& final(self).handles@.len() == old(self).handles@.len() + 1
                &&& forall|k: int|
                    0 <= k < old(self).handles@.len() ==> final(self).handles@[k] == old(
                        self,
                    ).handles@[k]
                &&& final(self).handles@[h as int].cont < old(self).defs@.len()
                &&& old(self).defs@[final(self).handles@[h as int].cont as int].path@ == path@
                &&& old(self).defs@[final(self).handles@[h as int].cont as int].name@ == name@
                &&& !final(self).handles@[h as int].daemonize
                &&& final(self).acquire_count() == old(self).acquire_count() + 1
                &&& final(self).release_count() == old(self).release_count()
                &&& final(self).defs == old(self).defs
                &&& final(self).running == old(self).running
                &&& final(self).calls == old(self).calls
                &&& final(self).config == old(self).config
                &&& final(self).version == old(self).version
                &&& final(self).log_ok == old(self).log_ok
                &&& final(self).enumerate_fails == old(self).enumerate_fails
                &&& final(self).heap == old(self).heap
            }),
    {
        let n = self.defs.len();
        let mut i: usize = 0;
        while i < n
            invariant
                0 <= i <= n,
                n == self.defs@.len(),
                *self == *old(self),
                old(self).wf(),
                forall|k: int|
                    0 <= k < i ==> !((#[trigger] self.defs@[k]).path@ == path@ && self.defs@[k].name@
                        == name@),
            decreases n - i,
        {
            if codec::bytes_eq(self.defs[i].path.as_slice(), path) && codec::bytes_eq(
                self.defs[i].name.as_slice(),
                name,
            ) {
                let h = self.handles.len();
                proof {
                    lemma_count_released_push(
                        self.handles@,
                        (HandleEntry { cont: i, released: false, daemonize: false }),
                    );
                }
                self.handles.push(HandleEntry { cont: i, released: false, daemonize: false });
                proof {
                    assert forall|k: int|
                        0 <= k < self.handles@.len() implies (#[trigger] self.handles@[k]).cont
                        < self.defs@.len() by {
                        if k < old(self).handles@.len() {
                            assert(self.handles@[k] == old(self).handles@[k]);
                        } else {
                            assert(self.handles@[k].cont == i);
                        }
                    }
                }
                return Some(h);
            }
            i = i + 1;
        }
        proof {
            if old(self).defines(path@, name@) {
                let w = choose|k: int|
                    0 <= k < old(self).defs@.len() && (#[trigger] old(self).defs@[k]).path@ == path@
                        && old(self).defs@[k].name@ == name@;
                assert(!(old(self).defs@[w].path@ == path@ && old(self).defs@[w].name@ == name@));
            }
        }
        None
    }

    /// Release a live handle's reference, exactly once: the handle is no
    /// longer live afterward, so no second release can be stated, and the
    /// release counter moves by one.
    pub fn release(&mut self, h: usize)
        requires
            old(self).wf(),
            old(self).handle_live(h as int),
        ensures
            final(self).wf(),
            !final(self).handle_live(h as int),
            final(self).handles@ == old(self).handles@.update(
                h as int,
                (HandleEntry { released: true, ..old(self).handles@[h as int] }),
            ),
            final(self).release_count() == old(self).release_count() + 1,
            final(self).acquire_count() == old(self).acquire_count(),
            final(self).defs == old(self).defs,
            final(self).running == old(self).running,
            final(self).calls == old(self).calls,
            final(self).config == old(self).config,
            final(self).version == old(self).version,
            final(self).log_ok == old(self).log_ok,
            final(self).enumerate_fails == old(self).enumerate_fails,
            final(self).heap == old(self).heap,
    {
        let entry = self.handles[h];
        proof {
            lemma_count_released_update(self.handles@, h as int, (HandleEntry { released: true, ..entry }));
        }
        self.handles.set(h, HandleEntry { released: true, ..entry });
    }

    /// Whether the calling process may control the referenced container.
    pub fn may_control(&self, h: usize) -> (r: bool)
        requires
            self.wf(),
            self.handle_live(h as int),
        ensures
            r == self.defs@[self.handle_cont(h as int)].controllable,
    {
        let j = self.handles[h].cont;
        self.defs[j].controllable
    }

    /// Whether the referenced container is running.
    pub fn is_running(&self, h: usize) -> (r: bool)
        requires
            self.wf(),
            self.handle_live(h as int),
        ensures
            r == self.running@[self.handle_cont(h as int)],
    {
        let j = self.handles[h].cont;
        self.running[j]
    }

    /// Borrow the raw state string the native side reports; the caller
    /// decodes it and does not own it.
    pub fn state_bytes(&self, h: usize) -> (r: &Vec<u8>)
        requires
            self.wf(),
            self.handle_live(h as int),
        ensures
            r@ == self.defs@[self.handle_cont(h as int)].state_bytes@,
    {
        let j = self.handles[h].cont;
        &self.defs[j].state_bytes
    }

    /// Set the pre-start daemonize flag on the handle; no failure path.
    pub fn want_daemonize(&mut self, h: usize, on: bool)
        requires
            old(self).wf(),
            old(self).handle_live(h as int),
        ensures
            final(self).wf(),
            final(self).handles@ == old(self).handles@.update(
                h as int,
                (HandleEntry { daemonize: on, ..old(self).handles@[h as int] }),
            ),
            final(self).handle_live(h as int),
            final(self).handle_cont(h as int) == old(self).handle_cont(h as int),
            final(self).acquire_count() == old(self).acquire_count(),
            final(self).release_count() == old(self).release_count(),
            final(self).defs == old(self).defs,
            final(self).running == old(self).running,
            final(self).calls == old(self).calls,
            final(self).config == old(self).config,
            final(self).version == old(self).version,
            final(self).log_ok == old(self).log_ok,
            final(self).enumerate_fails == old(self).enumerate_fails,
            final(self).heap == old(self).heap,
    {
        let entry = self.handles[h];
        proof {
            lemma_count_released_update(self.handles@, h as int, (HandleEntry { daemonize: on, ..entry }));
        }
        self.handles.set(h, HandleEntry { daemonize: on, ..entry });
    }

    /// The native start call. It is recorded with the exact override
    /// command line handed over (`None` for NULL), succeeds exactly when
    /// the container is stopped and its start behavior allows it, and on
    /// success the container runs.
    pub fn start(&mut self, h: usize, use_init: i32, argv: Option<Vec<Option<Vec<u8>>>>) -> (r:
        bool)
        requires
            old(self).wf(),
            old(self).handle_live(h as int),
        ensures
            final(self).wf(),
            ({
                let j = old(self).handle_cont(h as int);
                &&& r == (!old(self).running@[j] && old(self).defs@[j].start_ok)
                &&& final(self).running@ == old(self).running@.update(
                    j,
                    old(self).running@[j] || r,
                )
                &&& final(self).calls@ == old(self).calls@.push(
                    CallRecord::Start { use_init, argv },
                )
            }),
            final(self).handle_live(h as int),
            final(self).handle_cont(h as int) == old(self).handle_cont(h as int),
            final(self).handles == old(self).handles,
            final(self).acquire_count() == old(self).acquire_count(),
            final(self).release_count() == old(self).release_count(),
            final(self).defs == old(self).defs,
            final(self).config == old(self).config,
            final(self).version == old(self).version,
            final(self).log_ok == old(self).log_ok,
            final(self).enumerate_fails == old(self).enumerate_fails,
            final(self).heap == old(self).heap,
    {
        let j = self.handles[h].cont;
        let success = !self.running[j] && self.defs[j].start_ok;
        if success {
            self.running.set(j, true);
        } else {
            let cur = self.running[j];
            self.running.set(j, cur);
        }
        self.calls.push(CallRecord::Start { use_init, argv });
        proof {
            assert(self.running@ =~= old(self).running@.update(
                old(self).handle_cont(h as int),
                old(self).running@[old(self).handle_cont(h as int)] || success,
            ));
        }
        success
    }

    /// The native shutdown call. It is recorded with the exact timeout
    /// handed over, succeeds exactly when the container is running and its
    /// shutdown behavior allows it, and on success the container stops.
    pub fn shutdown(&mut self, h: usize, timeout: i32) -> (r: bool)
        requires
            old(self).wf(),
            old(self).handle_live(h as int),
        ensures
            final(self).wf(),
            ({
                let j = old(self).handle_cont(h as int);
                &&& r == (old(self).running@[j] && old(self).defs@[j].shutdown_ok)
                &&& final(self).running@ == old(self).running@.update(
                    j,
                    old(self).running@[j] && !r,
                )
                &&& final(self).calls@ == old(self).calls@.push(CallRecord::Shutdown { timeout })
            }),
            final(self).handle_live(h as int),
            final(self).handle_cont(h as int) == old(self).handle_cont(h as int),
            final(self).handles == old(self).handles,
            final(self).acquire_count() == old(self).acquire_count(),
            final(self).release_count() == old(self).release_count(),
            final(self).defs == old(self).defs,
            final(self).config == old(self).config,
            final(self).version == old(self).version,
            final(self).log_ok == old(self).log_ok,
            final(self).enumerate_fails == old(self).enumerate_fails,
            final(self).heap == old(self).heap,
    {
        let j = self.handles[h].cont;
        let success = self.running[j] && self.defs[j].shutdown_ok;
        let next = self.running[j] && !success;
        self.running.set(j, next);
        self.calls.push(CallRecord::Shutdown { timeout });
        proof {
            assert(self.running@ =~= old(self).running@.update(
                old(self).handle_cont(h as int),
                old(self).running@[old(self).handle_cont(h as int)] && !success,
            ));
        }
        success
    }

    /// The native forceful stop call. It is recorded, succeeds exactly
    /// when the container is running and its stop behavior allows it, and
    /// on success the container stops.
    pub fn stop(&mut self, h: usize) -> (r: bool)
        requires
            old(self).wf(),
            old(self).handle_live(h as int),
        ensures
            final(self).wf(),
            ({
                let j = old(self).handle_cont(h as int);
                &&& r == (old(self).running@[j] && old(self).defs@[j].stop_ok)
                &&& final(self).running@ == old(self).running@.update(
                    j,
                    old(self).running@[j] && !r,
                )
                &&& final(self).calls@ == old(self).calls@.push(CallRecord::Stop)
            }),
            final(self).handle_live(h as int),
            final(self).handle_cont(h as int) == old(self).handle_cont(h as int),
            final(self).handles == old(self).handles,
            final(self).acquire_count() == old(self).acquire_count(),
            final(self).release_count() == old(self).release_count(),
            final(self).defs == old(self).defs,
            final(self).config == old(self).config,
            final(self).version == old(self).version,
            final(self).log_ok == old(self).log_ok,
            final(self).enumerate_fails == old(self).enumerate_fails,
            final(self).heap == old(self).heap,
    {
        let j = self.handles[h].cont;
        let success = self.running[j] && self.defs[j].stop_ok;
        let next = self.running[j] && !success;
        self.running.set(j, next);
        self.calls.push(CallRecord::Stop);
        proof {
            assert(self.running@ =~= old(self).running@.update(
                old(self).handle_cont(h as int),
                old(self).running@[old(self).handle_cont(h as int)] && !success,
            ));
        }
        success
    }

    /// The blocking native attach call. It consumes the finalized record —
    /// a record serves exactly one call — and is recorded together with
    /// the program and argument array handed over. The result is the
    /// container's raw exit-status encoding when it runs, `-1` otherwise;
    /// no container state changes.
    pub fn attach_run_wait(
        &mut self,
        h: usize,
        record: AttachRecord,
        program: Vec<u8>,
        argv: Vec<Option<Vec<u8>>>,
    ) -> (r: i32)
        requires
            old(self).wf(),
            old(self).handle_live(h as int),
        ensures
            final(self).wf(),
            ({
                let j = old(self).handle_cont(h as int);
                &&& r == (if old(self).running@[j] {
                    old(self).defs@[j].attach_status
                } else {
                    -1i32
                })
                &&& final(self).calls@ == old(self).calls@.push(
                    CallRecord::Attach { record, program, argv },
                )
            }),
            final(self).handle_live(h as int),
            final(self).handle_cont(h as int) == old(self).handle_cont(h as int),
            final(self).handles == old(self).handles,
            final(self).acquire_count() == old(self).acquire_count(),
            final(self).release_count() == old(self).release_count(),
            final(self).defs == old(self).defs,
            final(self).running == old(self).running,
            final(self).config == old(self).config,
            final(self).version == old(self).version,
            final(self).log_ok == old(self).log_ok,
            final(self).enumerate_fails == old(self).enumerate_fails,
            final(self).heap == old(self).heap,
    {
        let j = self.handles[h].cont;
        let r = if self.running[j] {
            self.defs[j].attach_status
        } else {
            -1
        };
        self.calls.push(CallRecord::Attach { record, program, argv });
        r
    }

    /// The native console attach call. It is recorded together with the
    /// exact tty number, descriptors and escape character handed over, and
    /// reports zero exactly when the container is running and its console
    /// behavior allows it, a negative value otherwise.
    pub fn console(
        &mut self,
        h: usize,
        ttynum: i32,
        stdin_fd: i32,
        stdout_fd: i32,
        stderr_fd: i32,
        escape: i32,
    ) -> (r: i32)
        requires
            old(self).wf(),
            old(self).handle_live(h as int),
        ensures
            final(self).wf(),
            ({
                let j = old(self).handle_cont(h as int);
                &&& r == (if old(self).running@[j] && old(self).defs@[j].terminal_ok {
                    0i32
                } else {
                    -1i32
                })
                &&& final(self).calls@ == old(self).calls@.push(
                    (CallRecord::Terminal { ttynum, stdin_fd, stdout_fd, stderr_fd, escape }),
                )
            }),
            final(self).handle_live(h as int),
            final(self).handle_cont(h as int) == old(self).handle_cont(h as int),
            final(self).handles == old(self).handles,
            final(self).acquire_count() == old(self).acquire_count(),
            final(self).release_count() == old(self).release_count(),
            final(self).defs == old(self).defs,
            final(self).running == old(self).running,
            final(self).config == old(self).config,
            final(self).version == old(self).version,
            final(self).log_ok == old(self).log_ok,
            final(self).enumerate_fails == old(self).enumerate_fails,
            final(self).heap == old(self).heap,
    {
        let j = self.handles[h].cont;
        let r = if self.running[j] && self.defs[j].terminal_ok {
            0
        } else {
            -1
        };
        self.calls.push(CallRecord::Terminal { ttynum, stdin_fd, stdout_fd, stderr_fd, escape });
        r
    }

    /// The native log initialization call. It consumes the finalized
    /// record — a record serves exactly one call — records it, and reports
    /// zero exactly when the layer accepts log initialization.
    pub fn log_init(&mut self, record: LogRecord) -> (r: i32)
        requires
            old(self).wf(),
        ensures
            final(self).wf(),
            r == (if old(self).log_ok {
                0int
            } else {
                -1int
            }),
            final(self).calls@ == old(self).calls@.push(CallRecord::LogInit { record }),
            final(self).handles == old(self).handles,
            final(self).acquire_count() == old(self).acquire_count(),
            final(self).release_count() == old(self).release_count(),
            final(self).defs == old(self).defs,
            final(self).running == old(self).running,
            final(self).config == old(self).config,
            final(self).version == old(self).version,
            final(self).log_ok == old(self).log_ok,
            final(self).enumerate_fails == old(self).enumerate_fails,
            final(self).heap == old(self).heap,
    {
        let r: i32 = if self.log_ok {
            0
        } else {
            -1
        };
        self.calls.push(CallRecord::LogInit { record });
        r
    }

    /// Look a global configuration item up; the value is borrowed for the
    /// process's lifetime, never owned by the caller. `None` models the
    /// native NULL for an unknown key.
    pub fn get_config(&self, key: &[u8]) -> (r: Option<&Vec<u8>>)
        requires
            self.wf(),
        ensures
            !self.has_config(key@) ==> r is None,
            self.has_config(key@) ==> (r matches Some(v) && v@ == self.config_value(key@)),
    {
        let n = self.config.len();
        let mut i: usize = 0;
        while i < n
            invariant
                0 <= i <= n,
                n == self.config@.len(),
                self.wf(),
                forall|k: int| 0 <= k < i ==> (#[trigger] self.config@[k]).key@ != key@,
            decreases n - i,
        {
            if codec::bytes_eq(self.config[i].key.as_slice(), key) {
                proof {
                    assert(self.has_config(key@));
                    let w = choose|w: int|
                        0 <= w < self.config@.len() && (#[trigger] self.config@[w]).key@ == key@;
                    if w < i as int {
                        assert((#[trigger] self.config@[w]).key@ != (#[trigger] self.config@[i as int]).key@);
                    } else if w > i as int {
                        assert((#[trigger] self.config@[i as int]).key@ != (#[trigger] self.config@[w]).key@);
                    }
                    assert(w == i as int);
                }
                return Some(&self.config[i].value);
            }
            i = i + 1;
        }
        proof {
            if self.has_config(key@) {
                let w = choose|k: int|
                    0 <= k < self.config@.len() && (#[trigger] self.config@[k]).key@ == key@;
                assert(self.config@[w].key@ != key@);
            }
        }
        None
    }

    /// Borrow the library's version string bytes.
    pub fn get_version(&self) -> (r: &Vec<u8>)
        ensures
            r@ == self.version@,
    {
        &self.version
    }

    /// The number of references acquired so far, as a reference-count
    /// check reads it.
    pub fn acquires(&self) -> (r: usize)
        ensures
            r as int == self.acquire_count(),
    {
        self.handles.len()
    }

    /// The number of references released so far.
    pub fn releases(&self) -> (r: usize)
        ensures
            r as int == self.release_count(),
    {
        let n = self.handles.len();
        let mut cnt: usize = 0;
        let mut i: usize = 0;
        while i < n
            invariant
                0 <= i <= n,
                n == self.handles@.len(),
                cnt <= i,
                cnt as int == count_released(self.handles@.take(i as int)) as int,
            decreases n - i,
        {
            proof {
                assert(self.handles@.take(i + 1).drop_last() =~= self.handles@.take(i as int));
                assert(self.handles@.take(i + 1).last() == self.handles@[i as int]);
            }
            if self.handles[i].released {
                cnt = cnt + 1;
            }
            i = i + 1;
        }
        proof {
            assert(self.handles@.take(n as int) =~= self.handles@);
        }
        cnt
    }

    /// The native container enumeration under `path`.
    ///
    /// On failure the count is negative and nothing is handed over.
    /// Otherwise the count is the number of containers defined under the
    /// path, in definition order; when it is positive, ownership of a
    /// freshly allocated string array — one NUL-terminated name per
    /// container, and the array allocation itself — transfers to the
    /// caller, who must free every block exactly once.
    pub fn list_names(&mut self, path: &[u8]) -> (r: (i32, Option<NativeStrArray>))
        requires
            old(self).wf(),
        ensures
            final(self).wf(),
            final(self).defs == old(self).defs,
            final(self).running == old(self).running,
            final(self).handles == old(self).handles,
            final(self).acquire_count() == old(self).acquire_count(),
            final(self).release_count() == old(self).release_count(),
            final(self).calls == old(self).calls,
            final(self).config == old(self).config,
            final(self).version == old(self).version,
            final(self).log_ok == old(self).log_ok,
            final(self).enumerate_fails == old(self).enumerate_fails,
            old(self).enumerate_fails ==> r.0 == -1 && r.1 is None && final(self).heap == old(
                self,
            ).heap,
            !old(self).enumerate_fails ==> ({
                let names = names_under(old(self).defs@, path@);
                &&& r.0 as int == names.len()
                &&& (names.len() == 0 ==> r.1 is None && final(self).heap == old(self).heap)
                &&& (names.len() > 0 ==> fresh_array(
                    old(self).heap,
                    final(self).heap,
                    r.1,
                    names,
                ))
            }),
    {
        if self.enumerate_fails {
            return (-1, None);
        }
        let ghost all_names = names_under(self.defs@, path@);
        proof {
            lemma_names_under_len(self.defs@, path@);
            assert(self.defs@.take(self.defs@.len() as int) =~= self.defs@);
        }
        let n = self.defs.len();
        let mut texts: Vec<Vec<u8>> = Vec::new();
        let mut i: usize = 0;
        while i < n
            invariant
                0 <= i <= n,
                n == self.defs@.len(),
                *self == *old(self),
                old(self).wf(),
                !old(self).enumerate_fails,
                texts@.len() == names_under(self.defs@.take(i as int), path@).len(),
                forall|t: int|
                    0 <= t < texts@.len() ==> (#[trigger] texts@[t])@ == names_under(
                        self.defs@.take(i as int),
                        path@,
                    )[t],
            decreases n - i,
        {
            let ghost pre = names_under(self.defs@.take(i as int), path@);
            proof {
                assert(self.defs@.take(i + 1).drop_last() =~= self.defs@.take(i as int));
                assert(self.defs@.take(i + 1).last() == self.defs@[i as int]);
                lemma_names_under_len(self.defs@.take(i + 1), path@);
            }
            if codec::bytes_eq(self.defs[i].path.as_slice(), path) {
                texts.push(slice_to_vec(self.defs[i].name.as_slice()));
            }
            i = i + 1;
        }
        proof {
            assert(self.defs@.take(n as int) =~= self.defs@);
        }
        let count = texts.len();
        proof {
            assert(texts@.map_values(|v: Vec<u8>| v@) =~= all_names);
        }
        if count == 0 {
            return (0, None);
        }
        let arr = alloc_str_array(&mut self.heap, texts);
        (count as i32, Some(arr))
    }

    /// The native interface enumeration for a running container.
    ///
    /// The native side hands nothing over — NULL — when the container is
    /// not running or reports no interfaces. Otherwise ownership of a
    /// freshly allocated, NULL-terminated string array of interface names
    /// transfers to the caller, who must free every block exactly once.
    pub fn list_interfaces(&mut self, h: usize) -> (r: Option<NativeStrArray>)
        requires
            old(self).wf(),
            old(self).handle_live(h as int),
        ensures
            final(self).wf(),
            final(self).defs == old(self).defs,
            final(self).running == old(self).running,
            final(self).handles == old(self).handles,
            final(self).acquire_count() == old(self).acquire_count(),
            final(self).release_count() == old(self).release_count(),
            final(self).calls == old(self).calls,
            final(self).config == old(self).config,
            final(self).version == old(self).version,
            final(self).log_ok == old(self).log_ok,
            final(self).enumerate_fails == old(self).enumerate_fails,
            final(self).handle_live(h as int),
            ({
                let j = old(self).handle_cont(h as int);
                let names = iface_names(old(self).defs@[j].interfaces@);
                if old(self).running@[j] && names.len() > 0 {
                    fresh_array(old(self).heap, final(self).heap, r, names)
                } else {
                    r is None && final(self).heap == old(self).heap
                }
            }),
    {
        let j = self.handles[h].cont;
        if !self.running[j] {
            return None;
        }
        let n = self.defs[j].interfaces.len();
        if n == 0 {
            return None;
        }
        let mut texts: Vec<Vec<u8>> = Vec::new();
        let mut i: usize = 0;
        while i < n
            invariant
                0 <= i <= n,
                *self == *old(self),
                old(self).wf(),
                old(self).handle_live(h as int),
                j == old(self).handle_cont(h as int),
                n == self.defs@[j as int].interfaces@.len(),
                texts@.len() == i as int,
                forall|t: int|
                    0 <= t < i ==> (#[trigger] texts@[t])@
                        == self.defs@[j as int].interfaces@[t].name@,
            decreases n - i,
        {
            texts.push(slice_to_vec(self.defs[j].interfaces[i].name.as_slice()));
            i = i + 1;
        }
        proof {
            assert(texts@.map_values(|v: Vec<u8>| v@) =~= iface_names(
                self.defs@[j as int].interfaces@,
            ));
        }
        let arr = alloc_str_array(&mut self.heap, texts);
        Some(arr)
    }

    /// The native address enumeration for one interface of a running
    /// container.
    ///
    /// The native side hands nothing over — NULL — when the container is
    /// not running, the interface is unknown, or it has no addresses of
    /// the requested family. Otherwise ownership of a freshly allocated,
    /// NULL-terminated string array of addresses transfers to the caller,
    /// who must free every block exactly once.
    pub fn list_ips(&mut self, h: usize, iface: &[u8], v6: bool) -> (r: Option<NativeStrArray>)
        requires
            old(self).wf(),
            old(self).handle_live(h as int),
        ensures
            final(self).wf(),
            final(self).defs == old(self).defs,
            final(self).running == old(self).running,
            final(self).handles == old(self).handles,
            final(self).acquire_count() == old(self).acquire_count(),
            final(self).release_count() == old(self).release_count(),
            final(self).calls == old(self).calls,
            final(self).config == old(self).config,
            final(self).version == old(self).version,
            final(self).log_ok == old(self).log_ok,
            final(self).enumerate_fails == old(self).enumerate_fails,
            final(self).handle_live(h as int),
            ({
                let j = old(self).handle_cont(h as int);
                let addrs = iface_addrs(old(self).defs@[j].interfaces@, iface@, v6);
                if old(self).running@[j] && addrs.len() > 0 {
                    fresh_array(old(self).heap, final(self).heap, r, addrs)
                } else {
                    r is None && final(self).heap == old(self).heap
                }
            }),
    {
        let j = self.handles[h].cont;
        if !self.running[j] {
            return None;
        }
        let n = self.defs[j].interfaces.len();
        let mut idx: usize = 0;
        while idx < n
            invariant
                0 <= idx <= n,
                *self == *old(self),
                old(self).wf(),
                old(self).handle_live(h as int),
                j == old(self).handle_cont(h as int),
                old(self).running@[j as int],
                n == self.defs@[j as int].interfaces@.len(),
                forall|k: int|
                    0 <= k < idx ==> (#[trigger] self.defs@[j as int].interfaces@[k]).name@
                        != iface@,
            decreases n - idx,
        {
            if codec::bytes_eq(self.defs[j].interfaces[idx].name.as_slice(), iface) {
                proof {
                    lemma_find_iface_at(self.defs@[j as int].interfaces@, iface@, idx as int);
                }
                let addrs = if v6 {
                    &self.defs[j].interfaces[idx].ipv6
                } else {
                    &self.defs[j].interfaces[idx].ipv4
                };
                let m = addrs.len();
                if m == 0 {
                    return None;
                }
                let mut texts: Vec<Vec<u8>> = Vec::new();
                let mut i: usize = 0;
                let ghost want = iface_addrs(self.defs@[j as int].interfaces@, iface@, v6);
                while i < m
                    invariant
                        0 <= i <= m,
                        *self == *old(self),
                        old(self).wf(),
                        old(self).handle_live(h as int),
                        j == old(self).handle_cont(h as int),
                        old(self).running@[j as int],
                        0 <= idx < self.defs@[j as int].interfaces@.len(),
                        want == iface_addrs(self.defs@[j as int].interfaces@, iface@, v6),
                        m as int == want.len(),
                        want == (if v6 {
                            self.defs@[j as int].interfaces@[idx as int].ipv6@.map_values(
                                |a: Vec<u8>| a@,
                            )
                        } else {
                            self.defs@[j as int].interfaces@[idx as int].ipv4@.map_values(
                                |a: Vec<u8>| a@,
                            )
                        }),
                        texts@.len() == i as int,
                        forall|t: int| 0 <= t < i ==> (#[trigger] texts@[t])@ == want[t],
                    decreases m - i,
                {
                    let a = if v6 {
                        &self.defs[j].interfaces[idx].ipv6
                    } else {
                        &self.defs[j].interfaces[idx].ipv4
                    };
                    texts.push(slice_to_vec(a[i].as_slice()));
                    i = i + 1;
                }
                proof {
                    assert(texts@.map_values(|v: Vec<u8>| v@) =~= want);
                }
                let arr = alloc_str_array(&mut self.heap, texts);
                return Some(arr);
            }
            idx = idx + 1;
        }
        proof {
            lemma_find_iface_at(self.defs@[j as int].interfaces@, iface@, n as int);
        }
        None
    }
}

/// How many of the table's entries are marked released.
pub open spec fn count_released(s: Seq<HandleEntry>) -> nat
    decreases s.len(),
{
    if s.len() == 0 {
        0
    } else {
        count_released(s.drop_last()) + if s.last().released {
            1nat
        } else {
            0nat
        }
    }
}

/// Appending an entry adds its own released mark to the count.
proof fn lemma_count_released_push(s: Seq<HandleEntry>, e: HandleEntry)
    ensures
        count_released(s.push(e)) == count_released(s) + (if e.released {
            1nat
        } else {
            0nat
        }),
{
    assert(s.push(e).drop_last() =~= s);
}

/// Updating one entry moves the count by the difference of the released
/// marks.
proof fn lemma_count_released_update(s: Seq<HandleEntry>, h: int, e: HandleEntry)
    requires
        0 <= h < s.len(),
    ensures
        count_released(s.update(h, e)) as int == count_released(s) as int - (if s[h].released {
            1int
        } else {
            0int
        }) + (if e.released {
            1int
        } else {
            0int
        }),
    decreases s.len(),
{
    let t = s.update(h, e);
    if h == s.len() - 1 {
        assert(t.drop_last() =~= s.drop_last());
    } else {
        assert(t.drop_last() =~= s.drop_last().update(h, e));
        assert(t.last() == s.last());
        lemma_count_released_update(s.drop_last(), h, e);
    }
}

/// The names of the containers defined under `path`, in definition order.
pub open spec fn names_under(defs: Seq<ContainerDef>, path: Seq<u8>) -> Seq<Seq<u8>>
    decreases defs.len(),
{
    if defs.len() == 0 {
        Seq::empty()
    } else {
        let rest = names_under(defs.drop_last(), path);
        if defs.last().path@ == path {
            rest.push(defs.last().name@)
        } else {
            rest
        }
    }
}

/// There are at most as many matching names as definitions.
pub proof fn lemma_names_under_len(defs: Seq<ContainerDef>, path: Seq<u8>)
    ensures
        names_under(defs, path).len() <= defs.len(),
    decreases defs.len(),
{
    if defs.len() > 0 {
        lemma_names_under_len(defs.drop_last(), path);
    }
}

/// The interface names, in report order.
pub open spec fn iface_names(ifaces: Seq<InterfaceDef>) -> Seq<Seq<u8>> {
    ifaces.map_values(|d: InterfaceDef| d.name@)
}

/// The first interface of the given name, if any.
pub open spec fn find_iface(ifaces: Seq<InterfaceDef>, name: Seq<u8>) -> Option<InterfaceDef>
    decreases ifaces.len(),
{
    if ifaces.len() == 0 {
        None
    } else if ifaces[0].name@ == name {
        Some(ifaces[0])
    } else {
        find_iface(ifaces.drop_first(), name)
    }
}

/// The addresses an ip query for `name` reports: those of the first
/// interface of that name, or none when the name is unknown.
pub open spec fn iface_addrs(ifaces: Seq<InterfaceDef>, name: Seq<u8>, v6: bool) -> Seq<Seq<u8>> {
    match find_iface(ifaces, name) {
        Some(d) => if v6 {
            d.ipv6@.map_values(|a: Vec<u8>| a@)
        } else {
            d.ipv4@.map_values(|a: Vec<u8>| a@)
        },
        None => Seq::empty(),
    }
}

/// A position with no matching interface before it, and a matching one (or
/// the end) at it, settles the search.
pub proof fn lemma_find_iface_at(ifaces: Seq<InterfaceDef>, name: Seq<u8>, i: int)
    requires
        0 <= i <= ifaces.len(),
        forall|k: int| 0 <= k < i ==> (#[trigger] ifaces[k]).name@ != name,
        i < ifaces.len() ==> ifaces[i].name@ == name,
    ensures
        i < ifaces.len() ==> find_iface(ifaces, name) == Some(ifaces[i]),
        i == ifaces.len() ==> find_iface(ifaces, name) is None,
    decreases ifaces.len(),
{
    if ifaces.len() == 0 {
    } else if ifaces[0].name@ == name {
        assert(i == 0);
    } else {
        assert(forall|k: int| 0 <= k < i - 1 ==> ifaces.drop_first()[k] == ifaces[k + 1]);
        if i - 1 < ifaces.drop_first().len() {
            assert(ifaces.drop_first()[i - 1] == ifaces[i]);
        }
        lemma_find_iface_at(ifaces.drop_first(), name, i - 1);
    }
}

/// The id of the block allocated `i` allocations after heap state `pre`.
pub open spec fn next_block(pre: NativeHeap, i: int) -> int {
    pre.block_count() + i
}

/// What a native enumeration hands over: in `post` (grown from `pre`), a
/// fresh block per text holding its NUL-terminated encoding, and a fresh
/// block for the NULL-terminated array itself; nothing else touched.
pub open spec fn fresh_array(
    pre: NativeHeap,
    post: NativeHeap,
    r: Option<NativeStrArray>,
    texts: Seq<Seq<u8>>,
) -> bool {
    &&& r matches Some(arr)
    &&& arr.entries@.len() == texts.len() + 1
    &&& (forall|i: int|
        0 <= i < texts.len() ==> arr.entries@[i] == Some(next_block(pre, i) as usize))
    &&& arr.entries@[texts.len() as int] is None
    &&& arr.arr_id as int == next_block(pre, texts.len() as int)
    &&& post.block_count() == pre.block_count() + texts.len() + 1
    &&& post.live_blocks() == pre.live_blocks() + texts.len() + 1
    &&& (forall|i: int|
        0 <= i < texts.len() ==> post.live(next_block(pre, i)) && post.contents(
            next_block(pre, i),
        ) == codec::c_encoding(texts[i]))
    &&& post.live(arr.arr_id as int)
    &&& post.block_count() <= usize::MAX
    &&& (forall|j: int|
        0 <= j < pre.block_count() ==> post.live(j) == pre.live(j) && (pre.live(j)
            ==> post.contents(j) == pre.contents(j)))
}

/// Allocate one NUL-terminated string block per text, in order, then the
/// block standing for the pointer array itself, as a native enumeration
/// call does before handing the array over.
fn alloc_str_array(heap: &mut NativeHeap, texts: Vec<Vec<u8>>) -> (arr: NativeStrArray)
    ensures
        fresh_array(*old(heap), *final(heap), Some(arr), texts@.map_values(|v: Vec<u8>| v@)),
{
    let ghost orig = *heap;
    let k = texts.len();
    let mut entries: Vec<Option<usize>> = Vec::new();
    let mut i: usize = 0;
    while i < k
        invariant
            0 <= i <= k,
            k == texts@.len(),
            entries@.len() == i as int,
            forall|t: int| 0 <= t < i ==> entries@[t] == Some(next_block(orig, t) as usize),
            heap.block_count() == orig.block_count() + i,
            heap.live_blocks() == orig.live_blocks() + i,
            forall|t: int|
                0 <= t < i ==> heap.live(next_block(orig, t)) && heap.contents(
                    next_block(orig, t),
                ) == codec::c_encoding(texts@[t]@),
            forall|j: int|
                0 <= j < orig.block_count() ==> heap.live(j) == orig.live(j) && (orig.live(j)
                    ==> heap.contents(j) == orig.contents(j)),
        decreases k - i,
    {
        let mut buf = slice_to_vec(texts[i].as_slice());
        buf.push(0);
        proof {
            assert(buf@ =~= codec::c_encoding(texts@[i as int]@));
        }
        let ghost hp = *heap;
        let id = heap.allocate(buf);
        entries.push(Some(id));
        proof {
            assert(id as int == next_block(orig, i as int));
            assert forall|t: int|
                0 <= t < i + 1 implies heap.live(next_block(orig, t)) && heap.contents(
                next_block(orig, t),
            ) == codec::c_encoding(texts@[t]@) by {
                let x = next_block(orig, t);
                if t < i as int {
                    assert(hp.live(x) && hp.contents(x) == codec::c_encoding(texts@[t]@));
                    assert(x != id as int);
                    assert(heap.live(x) == hp.live(x) && (hp.live(x) ==> heap.contents(x)
                        == hp.contents(x)));
                } else {
                    assert(x == id as int);
                }
            }
            assert forall|j: int|
                0 <= j < orig.block_count() implies heap.live(j) == orig.live(j) && (orig.live(j)
                ==> heap.contents(j) == orig.contents(j)) by {
                assert(j != id as int);
                assert(heap.live(j) == hp.live(j) && (hp.live(j) ==> heap.contents(j)
                    == hp.contents(j)));
            }
        }
        i = i + 1;
    }
    let ghost hp2 = *heap;
    let arr_id = heap.allocate(Vec::new());
    proof {
        assert(arr_id as int == next_block(orig, k as int));
        assert forall|t: int|
            0 <= t < k implies heap.live(next_block(orig, t)) && heap.contents(
            next_block(orig, t),
        ) == codec::c_encoding(texts@[t]@) by {
            let x = next_block(orig, t);
            assert(hp2.live(x) && hp2.contents(x) == codec::c_encoding(texts@[t]@));
            assert(x != arr_id as int);
            assert(heap.live(x) == hp2.live(x) && (hp2.live(x) ==> heap.contents(x)
                == hp2.contents(x)));
        }
        assert forall|j: int|
            0 <= j < orig.block_count() implies heap.live(j) == orig.live(j) && (orig.live(j)
            ==> heap.contents(j) == orig.contents(j)) by {
            assert(j != arr_id as int);
            assert(heap.live(j) == hp2.live(j) && (hp2.live(j) ==> heap.contents(j)
                == hp2.contents(j)));
        }
    }
    let ghost pre_entries = entries@;
    entries.push(None);
    proof {
        assert forall|t: int|
            0 <= t < k implies entries@[t] == Some(next_block(orig, t) as usize) by {
            assert(entries@[t] == pre_entries[t]);
        }
        assert(entries@[k as int] is None);
        heap.lemma_block_count_bounded();
        let texts_view = texts@.map_values(|v: Vec<u8>| v@);
        assert(forall|t: int| 0 <= t < k ==> texts_view[t] == texts@[t]@);
    }
    NativeStrArray { arr_id, entries }
}

} // verus!
