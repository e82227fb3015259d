//! The static snapshot of the simulated design that the engine reports once
//! per simulation run: a tree of design-entity instantiations and packages,
//! each owning its child modules and declared signals in declaration order.
//! The snapshot is the authoritative map from names to signal instance
//! identifiers and their declared types.

use vstd::prelude::*;
use compact_str::CompactString;
use crate::from_simulator::RawValue;

verus! {

/// A display name held in the memory-compact string representation the wire
/// format uses. Wraps a compact_str::CompactString, which Verus cannot look
/// into; contracts speak of the held characters through
/// [`compact_name_chars`].
#[verifier::external_body]
pub struct CompactName {
    inner: CompactString,
}

/// The characters a compact name holds.
pub uninterp spec fn compact_name_chars(s: CompactName) -> Seq<char>;

impl CompactName {
    /// Relies on compact_str::CompactString::new: the returned compact
    /// string holds exactly the given characters.
    #[verifier::external_body]
    pub fn new(s: &str) -> (r: CompactName)
        ensures
            compact_name_chars(r) == s@,
    {
        CompactName { inner: CompactString::new(s) }
    }

    /// Relies on compact_str::CompactString::as_str: returns the entire held
    /// character sequence as a string slice.
    #[verifier::external_body]
    pub fn as_str(&self) -> (r: &str)
        ensures
            r@ == compact_name_chars(*self),
    {
        self.inner.as_str()
    }
}

impl Clone for CompactName {
    /// Relies on the Clone impl of compact_str::CompactString: a clone holds
    /// the same characters as the original.
    #[verifier::external_body]
    fn clone(&self) -> (r: Self)
        ensures
            compact_name_chars(r) == compact_name_chars(*self),
    {
        CompactName { inner: self.inner.clone() }
    }
}

/// Identifier for an instantiated signal in the design hierarchy.
///
/// These identifiers are allocated by the engine when it elaborates the
/// design; they start at one and are never zero. They are only stable during
/// a single simulation run, never across independent runs.
#[derive(Copy, Clone, Debug, Hash, PartialEq, Eq, Structural)]
pub struct SignalInstanceId(pub u32);

impl SignalInstanceId {
    /// A valid identifier is non-zero.
    pub open spec fn wf(self) -> bool {
        self.0 != 0
    }

    /// Builds an identifier from a raw integer; exactly the non-zero
    /// integers are valid.
    pub fn new(raw: u32) -> (r: Option<SignalInstanceId>)
        ensures
            raw != 0 ==> r == Some(SignalInstanceId(raw)),
            raw == 0 ==> r is None,
            r matches Some(id) ==> id.wf(),
    {
        if raw != 0 {
            Some(SignalInstanceId(raw))
        } else {
            None
        }
    }

    /// The raw integer value of the identifier.
    pub fn get(self) -> (r: u32)
        ensures
            r == self.0,
    {
        self.0
    }
}

/// Ascending (`To`) or descending (`Downto`) index range of a signal.
#[derive(Clone, Copy, Debug, PartialEq, Eq, Structural)]
pub enum Direction {
    To,
    Downto,
}

/// The declared type of a signal: a closed set of variants, recursive only
/// through arrays. Real bounds are carried as opaque 64-bit patterns
/// ([`RawValue`]) holding the IEEE-754 bits of the declared bounds.
#[derive(Debug)]
pub enum SignalType {
    Bit,
    /// IEEE 1164: U, X, 0, 1, Z, W, L, H, -
    Logic,
    Integer { min: i64, max: i64, direction: Direction },
    Real { min: RawValue, max: RawValue, direction: Direction },
    Array { left: i32, right: i32, direction: Direction, element_type: Box<SignalType> },
}

impl Clone for SignalType {
    /// A clone of a signal type equals the original.
    fn clone(&self) -> (r: Self)
        ensures
            r == *self,
        decreases *self,
    {
        match self {
            SignalType::Bit => SignalType::Bit,
            SignalType::Logic => SignalType::Logic,
            SignalType::Integer { min, max, direction } => SignalType::Integer {
                min: *min,
                max: *max,
                direction: *direction,
            },
            SignalType::Real { min, max, direction } => SignalType::Real {
                min: *min,
                max: *max,
                direction: *direction,
            },
            SignalType::Array { left, right, direction, element_type } => SignalType::Array {
                left: *left,
                right: *right,
                direction: *direction,
                element_type: Box::new((**element_type).clone()),
            },
        }
    }
}

/// One declared signal: a display name, its instance identifier, an optional
/// start of the contiguous block of per-element identifiers (present when a
/// composite signal is decomposed into scalar sub-signals), and its type.
pub struct Signal {
    pub name: CompactName,
    pub id: SignalInstanceId,
    pub sub_id_start: Option<SignalInstanceId>,
    pub typ: SignalType,
}

impl Signal {
    /// Builds a signal with the given display name, identifier, optional
    /// sub-identifier block start, and declared type.
    pub fn new(
        name: &str,
        id: SignalInstanceId,
        sub_id_start: Option<SignalInstanceId>,
        typ: SignalType,
    ) -> (r: Signal)
        ensures
            compact_name_chars(r.name) == name@,
            r.id == id,
            r.sub_id_start == sub_id_start,
            r.typ == typ,
    {
        Signal { name: CompactName::new(name), id, sub_id_start, typ }
    }

    /// The display name of the signal.
    pub fn name_str(&self) -> (r: &str)
        ensures
            r@ == compact_name_chars(self.name),
    {
        self.name.as_str()
    }

    /// The identifier of the element at `offset` within a decomposed
    /// composite signal: index arithmetic over the contiguous block that
    /// starts at `sub_id_start`, not a lookup. `None` when the signal is not
    /// decomposed or the offset runs past the representable identifiers.
    pub fn element_id(&self, offset: u32) -> (r: Option<SignalInstanceId>)
        ensures
            r == match self.sub_id_start {
                Some(start) => if start.0 + offset <= u32::MAX {
                    Some(SignalInstanceId((start.0 + offset) as u32))
                } else {
                    None::<SignalInstanceId>
                },
                None => None::<SignalInstanceId>,
            },
    {
        match self.sub_id_start {
            Some(start) => match start.0.checked_add(offset) {
                Some(raw) => Some(SignalInstanceId(raw)),
                None => None,
            },
            None => None,
        }
    }
}

impl Clone for Signal {
    /// A clone of a signal keeps its identifier, sub-identifier block and
    /// type, and its name keeps its characters.
    fn clone(&self) -> (r: Self)
        ensures
            r.id == self.id,
            r.sub_id_start == self.sub_id_start,
            r.typ == self.typ,
            compact_name_chars(r.name) == compact_name_chars(self.name),
    {
        Signal {
            name: self.name.clone(),
            id: self.id,
            sub_id_start: self.sub_id_start,
            typ: self.typ.clone(),
        }
    }
}

/// Either a design-entity instantiation (entity name plus architecture name)
/// or a package.
#[derive(Clone)]
pub enum ModuleKind {
    DesignEntity { entity: CompactName, architecture: CompactName },
    Package,
}

impl ModuleKind {
    /// Builds a design-entity kind from the entity and architecture names.
    pub fn design_entity(entity: &str, architecture: &str) -> (r: ModuleKind)
        ensures
            r matches ModuleKind::DesignEntity { entity: e, architecture: a }
                && compact_name_chars(e) == entity@ && compact_name_chars(a) == architecture@,
    {
        ModuleKind::DesignEntity {
            entity: CompactName::new(entity),
            architecture: CompactName::new(architecture),
        }
    }
}

/// One node of the design tree: the instance name (for design entities) or
/// package name, the node kind, and the child modules and declared signals,
/// each kept in declaration order. Duplicate instance names at one level are
/// legal; disambiguation is by full path.
pub struct Module {
    /// The instance name for design entities, the package name for packages.
    pub name: CompactName,
    pub kind: ModuleKind,
    pub submodules: Vec<Module>,
    pub signals: Vec<Signal>,
}

/// The identifiers declared by the first `n` signals of a declaration list,
/// in declaration order.
pub open spec fn signal_ids_prefix_spec(ss: Seq<Signal>, n: int) -> Seq<u32>
    decreases n,
{
    if n <= 0 || n > ss.len() {
        Seq::empty()
    } else {
        signal_ids_prefix_spec(ss, n - 1) + seq![ss[n - 1].id.0]
    }
}

/// The identifiers declared by the first `n` modules of a sibling list and
/// all their descendants, in depth-first declaration order.
pub open spec fn module_ids_prefix_spec(ms: Seq<Module>, n: int) -> Seq<u32>
    decreases ms, n,
{
    if n <= 0 || n > ms.len() {
        Seq::empty()
    } else {
        module_ids_prefix_spec(ms, n - 1) + ms[n - 1].declared_ids_spec()
    }
}

impl Module {
    /// All signal instance identifiers this module declares, directly or in
    /// a descendant, in depth-first declaration order: own signals first,
    /// then the submodules' in order.
    pub open spec fn declared_ids_spec(self) -> Seq<u32>
        decreases self, 0int,
    {
        signal_ids_prefix_spec(self.signals@, self.signals@.len() as int)
            + module_ids_prefix_spec(self.submodules@, self.submodules@.len() as int)
    }

    /// Builds a module with the given name and kind and no children yet.
    pub fn new(name: &str, kind: ModuleKind) -> (r: Module)
        ensures
            compact_name_chars(r.name) == name@,
            r.kind == kind,
            r.submodules@.len() == 0,
            r.signals@.len() == 0,
    {
        Module { name: CompactName::new(name), kind, submodules: Vec::new(), signals: Vec::new() }
    }

    /// The instance or package name of the module.
    pub fn name_str(&self) -> (r: &str)
        ensures
            r@ == compact_name_chars(self.name),
    {
        self.name.as_str()
    }

    /// Appends a child module; children stay in declaration order.
    pub fn push_submodule(&mut self, m: Module)
        ensures
            final(self).submodules@ == old(self).submodules@ + seq![m],
            final(self).signals == old(self).signals,
            final(self).name == old(self).name,
            final(self).kind == old(self).kind,
    {
        self.submodules.push(m);
    }

    /// Appends a declared signal; declarations stay in order.
    pub fn push_signal(&mut self, s: Signal)
        ensures
            final(self).signals@ == old(self).signals@ + seq![s],
            final(self).submodules == old(self).submodules,
            final(self).name == old(self).name,
            final(self).kind == old(self).kind,
    {
        self.signals.push(s);
    }

    /// Appends to `out` every identifier this module declares, in depth-first
    /// declaration order.
    pub fn push_declared_ids(&self, out: &mut Vec<u32>)
        ensures
            final(out)@ == old(out)@ + self.declared_ids_spec(),
        decreases *self, 1int,
    {
        let ghost entry = out@;
        let mut i: usize = 0;
        while i < self.signals.len()
            invariant
                i <= self.signals@.len(),
                out@ == entry + signal_ids_prefix_spec(self.signals@, i as int),
            decreases self.signals@.len() - i,
        {
            out.push(self.signals[i].id.0);
            proof {
                assert(signal_ids_prefix_spec(self.signals@, i + 1 as int) == signal_ids_prefix_spec(
                    self.signals@,
                    i as int,
                ) + seq![self.signals@[i as int].id.0]);
                assert(entry + signal_ids_prefix_spec(self.signals@, i + 1 as int) =~= (entry
                    + signal_ids_prefix_spec(self.signals@, i as int)) + seq![
                    self.signals@[i as int].id.0,
                ]);
            }
            i = i + 1;
        }
        let ghost after_signals = out@;
        let mut j: usize = 0;
        while j < self.submodules.len()
            invariant
                j <= self.submodules@.len(),
                out@ == after_signals + module_ids_prefix_spec(self.submodules@, j as int),
                after_signals == entry + signal_ids_prefix_spec(
                    self.signals@,
                    self.signals@.len() as int,
                ),
            decreases self.submodules@.len() - j,
        {
            self.submodules[j].push_declared_ids(out);
            proof {
                assert(module_ids_prefix_spec(self.submodules@, j + 1 as int) == module_ids_prefix_spec(
                    self.submodules@,
                    j as int,
                ) + self.submodules@[j as int].declared_ids_spec());
                assert(after_signals + module_ids_prefix_spec(self.submodules@, j + 1 as int) =~= (
                after_signals + module_ids_prefix_spec(self.submodules@, j as int))
                    + self.submodules@[j as int].declared_ids_spec());
            }
            j = j + 1;
        }
        proof {
            assert(out@ =~= entry + self.declared_ids_spec());
        }
    }
}

/// Two signal lists of equal length whose entries carry the same identifiers
/// declare the same identifier sequence.
proof fn lemma_signal_ids_prefix_congruent(a: Seq<Signal>, b: Seq<Signal>, n: int)
    requires
        a.len() == b.len(),
        forall|k: int| 0 <= k < a.len() ==> a[k].id == b[k].id,
    ensures
        signal_ids_prefix_spec(a, n) == signal_ids_prefix_spec(b, n),
    decreases n,
{
    if n > 0 && n <= a.len() {
        lemma_signal_ids_prefix_congruent(a, b, n - 1);
    }
}

/// Two module lists of equal length whose entries declare the same
/// identifiers declare the same identifier sequence.
proof fn lemma_module_ids_prefix_congruent(a: Seq<Module>, b: Seq<Module>, n: int)
    requires
        a.len() == b.len(),
        forall|k: int| 0 <= k < a.len() ==> a[k].declared_ids_spec() == b[k].declared_ids_spec(),
    ensures
        module_ids_prefix_spec(a, n) == module_ids_prefix_spec(b, n),
    decreases n,
{
    if n > 0 && n <= a.len() {
        lemma_module_ids_prefix_congruent(a, b, n - 1);
    }
}

impl Clone for Module {
    /// A clone of a module keeps its name's characters and declares exactly
    /// the identifiers of the original, in the same depth-first order.
    fn clone(&self) -> (r: Self)
        ensures
            r.declared_ids_spec() == self.declared_ids_spec(),
            compact_name_chars(r.name) == compact_name_chars(self.name),
        decreases *self,
    {
        let mut signals: Vec<Signal> = Vec::new();
        let mut i: usize = 0;
        while i < self.signals.len()
            invariant
                i <= self.signals@.len(),
                signals@.len() == i,
                forall|k: int| 0 <= k < i ==> signals@[k].id == self.signals@[k].id,
            decreases self.signals@.len() - i,
        {
            signals.push(self.signals[i].clone());
            i = i + 1;
        }
        let mut submodules: Vec<Module> = Vec::new();
        let mut j: usize = 0;
        while j < self.submodules.len()
            invariant
                j <= self.submodules@.len(),
                submodules@.len() == j,
                forall|k: int| 0 <= k < j ==> submodules@[k].declared_ids_spec()
                    == self.submodules@[k].declared_ids_spec(),
            decreases self.submodules@.len() - j,
        {
            submodules.push(self.submodules[j].clone());
            j = j + 1;
        }
        let r = Module { name: self.name.clone(), kind: self.kind.clone(), submodules, signals };
        proof {
            lemma_signal_ids_prefix_congruent(
                r.signals@,
                self.signals@,
                self.signals@.len() as int,
            );
            lemma_module_ids_prefix_congruent(
                r.submodules@,
                self.submodules@,
                self.submodules@.len() as int,
            );
        }
        r
    }
}

/// The single tree snapshot of the design, reported once per simulation run.
pub struct DesignHierarchy {
    pub root_modules: Vec<Module>,
}

impl DesignHierarchy {
    /// All signal instance identifiers the snapshot declares, in depth-first
    /// declaration order across the root modules.
    pub open spec fn declared_ids_spec(self) -> Seq<u32> {
        module_ids_prefix_spec(self.root_modules@, self.root_modules@.len() as int)
    }

    /// Collects every declared signal instance identifier, in depth-first
    /// declaration order.
    pub fn collect_declared_ids(&self) -> (r: Vec<u32>)
        ensures
            r@ == self.declared_ids_spec(),
    {
        let mut out: Vec<u32> = Vec::new();
        let mut j: usize = 0;
        while j < self.root_modules.len()
            invariant
                j <= self.root_modules@.len(),
                out@ == module_ids_prefix_spec(self.root_modules@, j as int),
            decreases self.root_modules@.len() - j,
        {
            self.root_modules[j].push_declared_ids(&mut out);
            proof {
                assert(module_ids_prefix_spec(self.root_modules@, j + 1 as int)
                    == module_ids_prefix_spec(self.root_modules@, j as int)
                    + self.root_modules@[j as int].declared_ids_spec());
            }
            j = j + 1;
        }
        out
    }
}

impl DesignHierarchy {
    /// Checks the snapshot's identifier invariant: every signal instance
    /// identifier is declared exactly once in the whole tree.
    pub fn ids_unique(&self) -> (r: bool)
        ensures
            r == self.declared_ids_spec().no_duplicates(),
    {
        let ids = self.collect_declared_ids();
        let n = ids.len();
        let mut i: usize = 0;
        while i < n
            invariant
                n == ids@.len(),
                ids@ == self.declared_ids_spec(),
                i <= n,
                forall|a: int, b: int| 0 <= a < b < i ==> ids@[a] != ids@[b],
            decreases n - i,
        {
            let mut j: usize = 0;
            while j < i
                invariant
                    i < n == ids@.len(),
                    ids@ == self.declared_ids_spec(),
                    j <= i,
                    forall|a: int| 0 <= a < j ==> ids@[a] != ids@[i as int],
                decreases i - j,
            {
                if ids[j] == ids[i] {
                    return false;
                }
                j = j + 1;
            }
            i = i + 1;
        }
        true
    }
}

impl Clone for DesignHierarchy {
    /// A clone of a snapshot declares exactly the identifiers of the
    /// original, in the same depth-first order.
    fn clone(&self) -> (r: Self)
        ensures
            r.declared_ids_spec() == self.declared_ids_spec(),
    {
        let mut root_modules: Vec<Module> = Vec::new();
        let mut j: usize = 0;
        while j < self.root_modules.len()
            invariant
                j <= self.root_modules@.len(),
                root_modules@.len() == j,
                forall|k: int| 0 <= k < j ==> root_modules@[k].declared_ids_spec()
                    == self.root_modules@[k].declared_ids_spec(),
            decreases self.root_modules@.len() - j,
        {
            root_modules.push(self.root_modules[j].clone());
            j = j + 1;
        }
        let r = DesignHierarchy { root_modules };
        proof {
            lemma_module_ids_prefix_congruent(
                r.root_modules@,
                self.root_modules@,
                self.root_modules@.len() as int,
            );
        }
        r
    }
}

} // verus!
