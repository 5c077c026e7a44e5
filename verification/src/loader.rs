//! The three-tier loader hierarchy: library, instance and device handles.
//!
//! Native module handles, instance handles, device handles and function
//! pointers are all carried as `u64` addresses, with `0` as the null
//! sentinel. Resolving a symbol produces a [`ResolveCall`]: a description
//! of the native resolver invocation the embedding program must perform.

use std::sync::Arc;
use vstd::prelude::*;

verus! {

/// A pending invocation of a native resolver entry point: call the
/// resolver at address `resolver` with the scope handle `scope` (null,
/// an instance, or a device) and the symbol name `name`.
pub struct ResolveCall {
    pub resolver: u64,
    pub scope: u64,
    pub name: String,
}

/// What a [`ResolveCall`] must look like: resolver address, scope handle
/// and symbol name, with no transformation of any of them.
pub open spec fn matches_call(c: ResolveCall, resolver: u64, scope: u64, name: Seq<char>) -> bool {
    &&& c.resolver == resolver
    &&& c.scope == scope
    &&& c.name@ == name
}

/// Where the module-loading sequence stands, and what the embedding
/// program must do next.
///
/// The sequence walks the candidate module names in priority order:
/// `OpenPending` asks the embedder to open the candidate at `idx`;
/// `SymbolPending` asks it to look up the global resolver symbol in the
/// module it just opened; `ReleasePending` asks it to release a module
/// that opened but lacked the symbol. `Succeeded` and `Failed` are final.
#[derive(Clone, Copy, Debug, PartialEq, Eq, Structural)]
pub enum LoadState {
    OpenPending { idx: usize },
    SymbolPending { idx: usize, module: u64 },
    ReleasePending { idx: usize, module: u64 },
    Succeeded { idx: usize, module: u64, resolver: u64 },
    Failed,
}

impl LoadState {
    /// The candidate index a non-final state is working on, or the index
    /// that succeeded.
    pub open spec fn idx(self) -> int {
        match self {
            LoadState::OpenPending { idx } => idx as int,
            LoadState::SymbolPending { idx, .. } => idx as int,
            LoadState::ReleasePending { idx, .. } => idx as int,
            LoadState::Succeeded { idx, .. } => idx as int,
            LoadState::Failed => 0,
        }
    }

    pub open spec fn is_final(self) -> bool {
        self is Succeeded || self is Failed
    }
}

/// The module-loading sequence over an ordered candidate list.
///
/// The embedding program performs the operating-system call each
/// non-final state asks for and reports its outcome through `on_open`,
/// `on_symbol` or `on_released`; the machine decides what happens next.
/// A reported handle or symbol address of `0` means the call failed.
pub struct LoadMachine {
    pub candidates: Vec<String>,
    pub state: LoadState,
}

/// Unless the machine failed, its index points at a real candidate.
pub open spec fn machine_wf(m: LoadMachine) -> bool {
    !(m.state is Failed) ==> 0 <= m.state.idx() < m.candidates@.len()
}

/// How the machine moves on after a candidate is exhausted (it failed to
/// open, or its module lacked the symbol and was released): the next
/// candidate's `OpenPending` if one remains, `Failed` otherwise.
pub open spec fn advanced_from(pre: LoadMachine, post: LoadMachine) -> bool {
    &&& post.candidates@ == pre.candidates@
    &&& if pre.state.idx() + 1 < pre.candidates@.len() {
        post.state == (LoadState::OpenPending { idx: (pre.state.idx() + 1) as usize })
    } else {
        post.state == LoadState::Failed
    }
}

impl LoadMachine {
    /// Starts the sequence: the first candidate is tried first; an empty
    /// candidate list fails outright.
    pub fn new(candidates: Vec<String>) -> (m: Self)
        ensures
            m.candidates@ == candidates@,
            candidates@.len() == 0 ==> m.state == LoadState::Failed,
            candidates@.len() > 0 ==> m.state == (LoadState::OpenPending { idx: 0 }),
            machine_wf(m),
    {
        let state = if candidates.len() == 0 {
            LoadState::Failed
        } else {
            LoadState::OpenPending { idx: 0 }
        };
        LoadMachine { candidates, state }
    }

    /// The candidate name the pending operating-system call is about.
    pub fn current_candidate(&self) -> (r: &String)
        requires
            machine_wf(*self),
            !self.state.is_final(),
        ensures
            r@ == self.candidates@[self.state.idx()]@,
    {
        let idx = match self.state {
            LoadState::OpenPending { idx } => idx,
            LoadState::SymbolPending { idx, .. } => idx,
            LoadState::ReleasePending { idx, .. } => idx,
            LoadState::Succeeded { idx, .. } => idx,
            LoadState::Failed => 0,
        };
        &self.candidates[idx]
    }

    /// Reports the outcome of opening the current candidate. A non-null
    /// module handle moves on to the symbol lookup; a null one skips to
    /// the next candidate.
    pub fn on_open(&mut self, module: u64)
        requires
            machine_wf(*old(self)),
            old(self).state is OpenPending,
        ensures
            final(self).candidates@ == old(self).candidates@,
            module != 0 ==> final(self).state == (LoadState::SymbolPending {
                idx: old(self).state.idx() as usize,
                module,
            }),
            module == 0 ==> advanced_from(*old(self), *final(self)),
            machine_wf(*final(self)),
    {
        let idx = match self.state {
            LoadState::OpenPending { idx } => idx,
            _ => 0,
        };
        if module != 0 {
            self.state = LoadState::SymbolPending { idx, module };
        } else {
            self.advance(idx);
        }
    }

    /// Reports the outcome of the global-resolver symbol lookup in the
    /// opened module. A non-null address succeeds with this candidate; a
    /// null one asks for the module to be released before moving on.
    pub fn on_symbol(&mut self, resolver: u64)
        requires
            machine_wf(*old(self)),
            old(self).state is SymbolPending,
        ensures
            final(self).candidates@ == old(self).candidates@,
            resolver != 0 ==> final(self).state == (LoadState::Succeeded {
                idx: old(self).state.idx() as usize,
                module: old(self).state->SymbolPending_module,
                resolver,
            }),
            resolver == 0 ==> final(self).state == (LoadState::ReleasePending {
                idx: old(self).state.idx() as usize,
                module: old(self).state->SymbolPending_module,
            }),
            machine_wf(*final(self)),
    {
        let (idx, module) = match self.state {
            LoadState::SymbolPending { idx, module } => (idx, module),
            _ => (0, 0),
        };
        if resolver != 0 {
            self.state = LoadState::Succeeded { idx, module, resolver };
        } else {
            self.state = LoadState::ReleasePending { idx, module };
        }
    }

    /// Reports that the useless module has been released; the sequence
    /// moves on to the next candidate.
    pub fn on_released(&mut self)
        requires
            machine_wf(*old(self)),
            old(self).state is ReleasePending,
        ensures
            advanced_from(*old(self), *final(self)),
            machine_wf(*final(self)),
    {
        let idx = match self.state {
            LoadState::ReleasePending { idx, .. } => idx,
            _ => 0,
        };
        self.advance(idx);
    }

    /// The informational line a successful sequence logs: the name of
    /// the winning candidate and the address of the resolver found in
    /// it.
    pub fn success_log(&self) -> (r: String)
        requires
            machine_wf(*self),
            self.state is Succeeded,
        ensures
            r@ == crate::log::spec_found_line(
                self.candidates@[self.state.idx()]@,
                self.state->Succeeded_resolver,
            ),
    {
        let (idx, resolver) = match self.state {
            LoadState::Succeeded { idx, resolver, .. } => (idx, resolver),
            _ => (0, 0),
        };
        crate::log::found_line(self.candidates[idx].as_str(), resolver)
    }

    /// The error line a failed sequence logs, one line in all.
    pub fn failure_log(&self) -> (r: String)
        requires
            self.state is Failed,
        ensures
            r@ == crate::log::spec_not_found_line(),
    {
        crate::log::not_found_line()
    }

    /// Moves past candidate `idx`: on to the next one, or to failure when
    /// none remains.
    fn advance(&mut self, idx: usize)
        requires
            machine_wf(*old(self)),
            !old(self).state.is_final(),
            idx == old(self).state.idx(),
        ensures
            advanced_from(*old(self), *final(self)),
            machine_wf(*final(self)),
    {
        let n = self.candidates.len();
        if idx + 1 < n {
            self.state = LoadState::OpenPending { idx: idx + 1 };
        } else {
            self.state = LoadState::Failed;
        }
    }
}

/// Candidate `j` is a hit when opening it yields a module and that
/// module yields the resolver symbol, as recorded in the per-candidate
/// outcome sequences `opens` and `syms` (`0` meaning failure).
pub open spec fn is_hit(opens: Seq<u64>, syms: Seq<u64>, j: int) -> bool {
    opens[j] != 0 && syms[j] != 0
}

/// No candidate before `j` is a hit.
pub open spec fn no_hit_before(opens: Seq<u64>, syms: Seq<u64>, j: int) -> bool {
    forall|k: int| 0 <= k < j ==> !is_hit(opens, syms, k)
}

/// The default candidate module names, tried in this priority order.
pub fn default_candidates() -> (r: Vec<String>)
    ensures
        r@.len() == 2,
        r@[0]@ == "winevulkan.dll"@,
        r@[1]@ == "vulkan-1.dll"@,
{
    let mut v: Vec<String> = Vec::new();
    v.push("winevulkan.dll".to_owned());
    v.push("vulkan-1.dll".to_owned());
    v
}

/// Runs the whole loading sequence against given per-candidate probe
/// outcomes: `opens[j]` is the module handle that opening candidate `j`
/// would yield and `syms[j]` the resolver address its module would
/// yield, `0` meaning failure.
///
/// The sequence succeeds exactly when some candidate is a hit, and then
/// with the first hit in list order, never a later one; it fails exactly
/// when no candidate is a hit. An embedder whose operating-system calls
/// behave as `opens` and `syms` describe drives the machine through the
/// same transitions as this driver.
pub fn load_with_outcomes(candidates: Vec<String>, opens: &Vec<u64>, syms: &Vec<u64>) -> (m:
    LoadMachine)
    requires
        opens@.len() == candidates@.len(),
        syms@.len() == candidates@.len(),
    ensures
        m.candidates@ == candidates@,
        machine_wf(m),
        m.state.is_final(),
        m.state matches LoadState::Succeeded { idx, module, resolver } ==> {
            &&& is_hit(opens@, syms@, idx as int)
            &&& no_hit_before(opens@, syms@, idx as int)
            &&& module == opens@[idx as int]
            &&& resolver == syms@[idx as int]
        },
        m.state is Failed ==> no_hit_before(opens@, syms@, candidates@.len() as int),
        (exists|j: int| 0 <= j < candidates@.len() && is_hit(opens@, syms@, j)) ==> m.state
            is Succeeded,
{
    let ghost cands: Seq<String> = candidates@;
    let n_total = candidates.len();
    let mut m = LoadMachine::new(candidates);
    loop
        invariant
            machine_wf(m),
            cands.len() == n_total,
            m.candidates@ == cands,
            opens@.len() == cands.len(),
            syms@.len() == cands.len(),
            m.state matches LoadState::OpenPending { idx } ==> no_hit_before(
                opens@,
                syms@,
                idx as int,
            ),
            m.state matches LoadState::SymbolPending { idx, module } ==> no_hit_before(
                opens@,
                syms@,
                idx as int,
            ) && module == opens@[idx as int] && module != 0,
            m.state matches LoadState::ReleasePending { idx, module } ==> no_hit_before(
                opens@,
                syms@,
                idx as int,
            ) && module == opens@[idx as int] && syms@[idx as int] == 0,
            m.state matches LoadState::Succeeded { idx, module, resolver } ==> {
                &&& is_hit(opens@, syms@, idx as int)
                &&& no_hit_before(opens@, syms@, idx as int)
                &&& module == opens@[idx as int]
                &&& resolver == syms@[idx as int]
            },
            m.state is Failed ==> no_hit_before(opens@, syms@, cands.len() as int),
        ensures
            m.state.is_final(),
        decreases (if m.state.is_final() {
            0int
        } else {
            3 * (cands.len() - m.state.idx()) + (if m.state is OpenPending {
                2int
            } else if m.state is SymbolPending {
                1int
            } else {
                0int
            })
        }),
    {
        match m.state {
            LoadState::OpenPending { idx } => {
                let outcome = opens[idx];
                m.on_open(outcome);
                proof {
                    if outcome == 0 {
                        assert(no_hit_before(opens@, syms@, idx + 1)) by {
                            assert(!is_hit(opens@, syms@, idx as int));
                        }
                    }
                }
            },
            LoadState::SymbolPending { idx, .. } => {
                let outcome = syms[idx];
                m.on_symbol(outcome);
            },
            LoadState::ReleasePending { idx, .. } => {
                m.on_released();
                proof {
                    assert(no_hit_before(opens@, syms@, idx + 1)) by {
                        assert(!is_hit(opens@, syms@, idx as int));
                    }
                }
            },
            LoadState::Succeeded { .. } => {
                break;
            },
            LoadState::Failed => {
                break;
            },
        }
    }
    proof {
        if m.state is Failed {
            assert forall|j: int| 0 <= j < cands.len() implies !is_hit(opens@, syms@, j) by {
                assert(no_hit_before(opens@, syms@, cands.len() as int));
            }
        }
    }
    m
}

/// The library tier: an optionally owned native module handle plus the
/// driver's global resolver entry point.
///
/// `library` is `Some(module)` only if the module was opened on behalf of
/// this handle, which then owes its release; it is `None` when the
/// resolver was supplied externally or when loading failed.
/// `get_instance_proc_addr` is the address of the global resolver, `0`
/// when loading failed.
pub struct LibraryLoader {
    pub library: Option<u64>,
    pub get_instance_proc_addr: u64,
}

impl LibraryLoader {
    /// A handle is valid exactly when its global resolver is non-null.
    pub open spec fn spec_valid(self) -> bool {
        self.get_instance_proc_addr != 0
    }

    /// Builds the handle from a finished loading sequence. On success it
    /// owns the opened module and stores the resolver found in it; on
    /// failure it owns nothing and its resolver is the null sentinel, so
    /// the handle is constructed but invalid — never a hard failure.
    pub fn new(load: &LoadMachine) -> (r: Self)
        requires
            load.state.is_final(),
        ensures
            load.state matches LoadState::Succeeded { module, resolver, .. } ==> (r.library
                == Some(module) && r.get_instance_proc_addr == resolver),
            load.state is Failed ==> (r.library is None && !r.spec_valid()),
    {
        match load.state {
            LoadState::Succeeded { module, resolver, .. } => LibraryLoader {
                library: Some(module),
                get_instance_proc_addr: resolver,
            },
            _ => LibraryLoader { library: None, get_instance_proc_addr: 0 },
        }
    }

    /// Wraps a resolver obtained by the host environment. The handle owns
    /// no module, so no module is ever opened or released for it: any
    /// non-null resolver yields a valid handle with nothing to release.
    pub fn from_proc(loader_proc: u64) -> (r: Self)
        ensures
            r.library is None,
            r.get_instance_proc_addr == loader_proc,
            r.spec_valid() == (loader_proc != 0),
    {
        LibraryLoader { library: None, get_instance_proc_addr: loader_proc }
    }

    /// A handle is valid exactly when its global resolver is non-null.
    pub fn valid(&self) -> (r: bool)
        ensures
            r == self.spec_valid(),
    {
        self.get_instance_proc_addr != 0
    }

    /// Describes the global-resolver invocation for `name` scoped to
    /// `instance`: the instruction to call `get_instance_proc_addr`
    /// with exactly this scope handle and symbol name.
    pub fn sym(&self, instance: u64, name: &str) -> (c: ResolveCall)
        ensures
            matches_call(c, self.get_instance_proc_addr, instance, name@),
    {
        ResolveCall {
            resolver: self.get_instance_proc_addr,
            scope: instance,
            name: name.to_owned(),
        }
    }

    /// Global-scope resolution: the same invocation as [`Self::sym`] with
    /// a null scope handle.
    pub fn sym_global(&self, name: &str) -> (c: ResolveCall)
        ensures
            matches_call(c, self.get_instance_proc_addr, 0, name@),
    {
        self.sym(0, name)
    }

    /// The module to release when the handle is dropped: the owned module
    /// if there is one, nothing otherwise.
    pub fn module_to_release(&self) -> (r: Option<u64>)
        ensures
            r == self.library,
    {
        self.library
    }
}

/// The instance tier: a shared library handle scoped to one native
/// instance handle, plus the flag saying whether this reference owns the
/// instance.
pub struct InstanceLoader {
    pub library: Arc<LibraryLoader>,
    pub instance: u64,
    pub owned: bool,
}

impl InstanceLoader {
    /// Stores the shared library reference, the instance handle and the
    /// ownership flag; nothing is resolved at construction.
    pub fn new(library: Arc<LibraryLoader>, owned: bool, instance: u64) -> (r: Self)
        ensures
            r.library == library,
            r.instance == instance,
            r.owned == owned,
    {
        InstanceLoader { library, instance, owned }
    }

    /// Instance-scoped resolution delegates to the library's global
    /// resolver with the stored instance handle: the instance tier adds
    /// no transformation of the name or the scope, and every call
    /// re-resolves (no caching at this tier).
    pub fn sym(&self, name: &str) -> (c: ResolveCall)
        ensures
            matches_call(c, (*self.library).get_instance_proc_addr, self.instance, name@),
    {
        self.library.sym(self.instance, name)
    }
}

/// The device tier: a shared instance handle, the device-scoped resolver
/// fetched once at construction, the native device handle, and the
/// ownership flag.
pub struct DeviceLoader {
    pub library: Arc<InstanceLoader>,
    pub get_device_proc_addr: u64,
    pub device: u64,
    pub owned: bool,
}

impl DeviceLoader {
    /// The one instance-level lookup a device handle ever needs: the
    /// request for the device-scoped resolver entry point. Constructing
    /// a device handle performs this lookup exactly once and caches its
    /// result; later lookups never repeat it.
    pub fn resolver_request(library: &InstanceLoader) -> (c: ResolveCall)
        ensures
            matches_call(
                c,
                (*library.library).get_instance_proc_addr,
                library.instance,
                "vkGetDeviceProcAddr"@,
            ),
    {
        library.sym("vkGetDeviceProcAddr")
    }

    /// Stores the shared instance reference, the device handle, the
    /// ownership flag, and the device-scoped resolver that answering
    /// [`Self::resolver_request`] produced.
    pub fn new(library: Arc<InstanceLoader>, owned: bool, device: u64, get_device_proc_addr: u64) -> (r: Self)
        ensures
            r.library == library,
            r.device == device,
            r.owned == owned,
            r.get_device_proc_addr == get_device_proc_addr,
    {
        DeviceLoader { library, get_device_proc_addr, device, owned }
    }

    /// Device-scoped resolution goes through the resolver cached at
    /// construction, scoped to the stored device handle; no
    /// instance-level lookup ever recurs.
    pub fn sym(&self, name: &str) -> (c: ResolveCall)
        ensures
            matches_call(c, self.get_device_proc_addr, self.device, name@),
    {
        ResolveCall {
            resolver: self.get_device_proc_addr,
            scope: self.device,
            name: name.to_owned(),
        }
    }
}

/// The destroy invocation an owning wrapper owes at destruction: resolve
/// `lookup`, then invoke the entry point it yields on `target` with no
/// allocation callbacks, and only then release the wrapped handle.
pub struct DestroyPlan {
    pub lookup: ResolveCall,
    pub target: u64,
}

/// The function-table wrapper of the library tier. Destruction of the
/// wrapped [`LibraryLoader`] releases its module if it owns one, which
/// [`LibraryLoader::module_to_release`] decides.
pub struct LibraryFn(pub LibraryLoader);

impl LibraryFn {
    /// Wraps the handle a finished loading sequence produced.
    pub fn new(load: &LoadMachine) -> (r: Self)
        requires
            load.state.is_final(),
        ensures
            load.state matches LoadState::Succeeded { module, resolver, .. } ==> (r.0.library
                == Some(module) && r.0.get_instance_proc_addr == resolver),
            load.state is Failed ==> (r.0.library is None && r.0.get_instance_proc_addr == 0),
    {
        LibraryFn(LibraryLoader::new(load))
    }

    /// Wraps an externally supplied resolver; no module is owned.
    pub fn from_proc(loader_proc: u64) -> (r: Self)
        ensures
            r.0.library is None,
            r.0.get_instance_proc_addr == loader_proc,
    {
        LibraryFn(LibraryLoader::from_proc(loader_proc))
    }
}

/// The function-table wrapper of the instance tier.
pub struct InstanceFn(pub InstanceLoader);

impl InstanceFn {
    pub fn new(library: Arc<LibraryLoader>, owned: bool, instance: u64) -> (r: Self)
        ensures
            r.0.library == library,
            r.0.instance == instance,
            r.0.owned == owned,
    {
        InstanceFn(InstanceLoader::new(library, owned, instance))
    }

    /// What destruction owes: a destroy invocation exactly when the
    /// wrapper owns its instance, and then the instance-destroy entry
    /// point resolved through the library's global resolver with the
    /// stored instance handle, invoked on that same handle. A wrapper
    /// that owns nothing destroys nothing.
    pub fn teardown_plan(&self) -> (r: Option<DestroyPlan>)
        ensures
            r is Some <==> self.0.owned,
            r matches Some(p) ==> matches_call(
                p.lookup,
                (*self.0.library).get_instance_proc_addr,
                self.0.instance,
                "vkDestroyInstance"@,
            ) && p.target == self.0.instance,
    {
        if self.0.owned {
            Some(DestroyPlan { lookup: self.0.sym("vkDestroyInstance"), target: self.0.instance })
        } else {
            None
        }
    }
}

/// The function-table wrapper of the device tier.
pub struct DeviceFn(pub DeviceLoader);

impl DeviceFn {
    pub fn new(library: Arc<InstanceLoader>, owned: bool, device: u64, get_device_proc_addr: u64) -> (r: Self)
        ensures
            r.0.library == library,
            r.0.device == device,
            r.0.owned == owned,
            r.0.get_device_proc_addr == get_device_proc_addr,
    {
        DeviceFn(DeviceLoader::new(library, owned, device, get_device_proc_addr))
    }

    /// What destruction owes: a destroy invocation exactly when the
    /// wrapper owns its device, and then the device-destroy entry point
    /// resolved through the cached device resolver with the stored
    /// device handle, invoked on that same handle. A wrapper that owns
    /// nothing destroys nothing.
    pub fn teardown_plan(&self) -> (r: Option<DestroyPlan>)
        ensures
            r is Some <==> self.0.owned,
            r matches Some(p) ==> matches_call(
                p.lookup,
                self.0.get_device_proc_addr,
                self.0.device,
                "vkDestroyDevice"@,
            ) && p.target == self.0.device,
    {
        if self.0.owned {
            Some(DestroyPlan { lookup: self.0.sym("vkDestroyDevice"), target: self.0.device })
        } else {
            None
        }
    }
}

} // verus!
