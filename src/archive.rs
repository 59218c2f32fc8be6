use vstd::prelude::*;

verus! {

/// The path separator, `/`.
pub const SEPARATOR: u8 = 47;

/// What the walk of the source tree yields for one entry.
#[derive(Clone, Debug)]
pub enum WalkItem {
    /// An entry the walk reached, by the bytes of its full path.
    Entry(Vec<u8>),
    /// The walk could not read an entry at this depth (0 is the source root).
    Failed { depth: usize },
}

/// What to do with one walked entry.
#[derive(Clone, Debug)]
pub enum EntryAction {
    /// Append the entry to the archive under this relative path (its bytes).
    Append(Vec<u8>),
    /// The source root itself: skipped silently.
    SkipRoot,
    /// Skipped with a warning; the archive goes on.
    SkipWithWarning,
    /// The source root cannot be read: the whole archive fails.
    Abort,
}

/// `path` relative to `source`: empty for the source itself, the rest after
/// the separator for an entry beneath it, `None` otherwise.
pub open spec fn relative_name(source: Seq<u8>, path: Seq<u8>) -> Option<Seq<u8>> {
    if path == source {
        Some(Seq::empty())
    } else if path.len() > source.len() && path.subrange(0, source.len() as int) == source {
        let rest = path.subrange(source.len() as int, path.len() as int);
        if source.len() > 0 && source.last() == SEPARATOR {
            Some(rest)
        } else if rest[0] == SEPARATOR {
            Some(rest.subrange(1, rest.len() as int))
        } else {
            None
        }
    } else {
        None
    }
}

/// The name under which `item` goes into the archive, if it goes in.
pub open spec fn member_name(source: Seq<u8>, item: WalkItem) -> Option<Seq<u8>> {
    match item {
        WalkItem::Entry(p) => match relative_name(source, p@) {
            Some(n) => if n.len() > 0 { Some(n) } else { None },
            None => None,
        },
        _ => None,
    }
}

/// Whether `item` is the source root itself.
pub open spec fn is_root(source: Seq<u8>, item: WalkItem) -> bool {
    match item {
        WalkItem::Entry(p) => relative_name(source, p@) == Some(Seq::<u8>::empty()),
        _ => false,
    }
}

/// Whether `item` means that the source root cannot be read.
pub open spec fn is_fatal(item: WalkItem) -> bool {
    match item {
        WalkItem::Failed { depth } => depth == 0,
        _ => false,
    }
}

/// Whether `a` is the action owed to `item`.
pub open spec fn is_action_for(source: Seq<u8>, item: WalkItem, a: EntryAction) -> bool {
    match a {
        EntryAction::Append(n) => member_name(source, item) == Some(n@),
        EntryAction::SkipRoot => is_root(source, item),
        EntryAction::Abort => is_fatal(item),
        EntryAction::SkipWithWarning => member_name(source, item) is None && !is_root(source, item)
            && !is_fatal(item),
    }
}

fn has_prefix(s: &[u8], p: &[u8]) -> (r: bool)
    ensures
        r == (p@.len() <= s@.len() && s@.subrange(0, p@.len() as int) == p@),
{
    if p.len() > s.len() {
        return false;
    }
    let mut i: usize = 0;
    while i < p.len()
        invariant
            p@.len() <= s@.len(),
            i <= p@.len(),
            forall|k: int| 0 <= k < i ==> s@[k] == p@[k],
        decreases p@.len() - i,
    {
        if s[i] != p[i] {
            assert(s@.subrange(0, p@.len() as int)[i as int] != p@[i as int]);
            return false;
        }
        i = i + 1;
    }
    assert(s@.subrange(0, p@.len() as int) =~= p@);
    true
}

/// The bytes `s[from..s.len()]`.
fn tail_of(s: &[u8], from: usize) -> (r: Vec<u8>)
    requires
        from <= s@.len(),
    ensures
        r@ == s@.subrange(from as int, s@.len() as int),
{
    let mut r: Vec<u8> = Vec::new();
    let mut i: usize = from;
    while i < s.len()
        invariant
            from <= i <= s@.len(),
            r@ == s@.subrange(from as int, i as int),
        decreases s@.len() - i,
    {
        r.push(s[i]);
        assert(r@ =~= s@.subrange(from as int, i + 1));
        i = i + 1;
    }
    r
}

/// Computes `path` relative to `source` as `relative_name` says.
pub fn relative_path(source: &[u8], path: &[u8]) -> (r: Option<Vec<u8>>)
    ensures
        r matches Some(n) ==> relative_name(source@, path@) == Some(n@),
        r is None ==> relative_name(source@, path@) is None,
{
    let slen = source.len();
    let plen = path.len();
    if !has_prefix(path, source) {
        proof {
            if path@ == source@ {
                assert(path@.subrange(0, source@.len() as int) =~= source@);
            }
        }
        return None;
    }
    if plen == slen {
        assert(path@ =~= source@);
        return Some(Vec::new());
    }
    if slen > 0 && source[slen - 1] == SEPARATOR {
        Some(tail_of(path, slen))
    } else if path[slen] == SEPARATOR {
        let name = tail_of(path, slen + 1);
        assert(name@ =~= path@.subrange(slen as int, plen as int).subrange(1, (plen - slen) as int));
        Some(name)
    } else {
        None
    }
}

/// Decides what becomes of one walked entry: the source root is skipped
/// silently, an entry beneath it is appended under its relative path, an
/// entry that cannot be related to the source or read is skipped with a
/// warning, and a source root that cannot be read aborts the archive.
pub fn entry_action(source: &[u8], item: &WalkItem) -> (r: EntryAction)
    ensures
        is_action_for(source@, *item, r),
{
    match item {
        WalkItem::Entry(p) => match relative_path(source, p.as_slice()) {
            Some(n) => {
                if n.len() > 0 {
                    EntryAction::Append(n)
                } else {
                    assert(n@ =~= Seq::<u8>::empty());
                    EntryAction::SkipRoot
                }
            },
            None => EntryAction::SkipWithWarning,
        },
        WalkItem::Failed { depth } => {
            if *depth == 0 {
                EntryAction::Abort
            } else {
                EntryAction::SkipWithWarning
            }
        },
    }
}

/// The names that one walked item, appended or not, adds to the archive.
pub open spec fn step_names(source: Seq<u8>, item: WalkItem, appended: bool) -> Seq<Seq<u8>> {
    match member_name(source, item) {
        Some(n) => if appended { seq![n] } else { Seq::empty() },
        None => Seq::empty(),
    }
}

/// The names that a run over `steps` puts into the archive, in order; each
/// step is a walked item and whether appending it succeeded.
pub open spec fn archived_names(source: Seq<u8>, steps: Seq<(WalkItem, bool)>) -> Seq<Seq<u8>>
    decreases steps.len(),
{
    if steps.len() == 0 {
        Seq::empty()
    } else {
        archived_names(source, steps.drop_last()) + step_names(
            source,
            steps.last().0,
            steps.last().1,
        )
    }
}

/// How many of the walked items are the source root itself.
pub open spec fn root_count(source: Seq<u8>, steps: Seq<(WalkItem, bool)>) -> nat
    decreases steps.len(),
{
    if steps.len() == 0 {
        0
    } else {
        root_count(source, steps.drop_last()) + if is_root(source, steps.last().0) {
            1nat
        } else {
            0nat
        }
    }
}

/// How many of the walked items get no relative path (and are not the root).
pub open spec fn unresolved_count(source: Seq<u8>, steps: Seq<(WalkItem, bool)>) -> nat
    decreases steps.len(),
{
    if steps.len() == 0 {
        0
    } else {
        unresolved_count(source, steps.drop_last()) + if member_name(source, steps.last().0) is None
            && !is_root(source, steps.last().0) {
            1nat
        } else {
            0nat
        }
    }
}

/// The names a recorded action adds: its relative path when it was appended.
pub open spec fn recorded_names(action: EntryAction, appended: bool) -> Seq<Seq<u8>> {
    match action {
        EntryAction::Append(n) => if appended { seq![n@] } else { Seq::empty() },
        _ => Seq::empty(),
    }
}

/// A count kept in a `u64`, which stops at its largest value.
pub open spec fn saturated(n: nat) -> nat {
    if n < u64::MAX { n } else { u64::MAX as nat }
}

/// The running record of one archive: the names appended so far and the
/// number of entries skipped with a warning.
pub struct ArchiveTally {
    written: u64,
    warned: u64,
    names: Ghost<Seq<Seq<u8>>>,
    warnings: Ghost<nat>,
}

impl ArchiveTally {
    /// The names appended so far, in order.
    pub closed spec fn names(&self) -> Seq<Seq<u8>> {
        self.names@
    }

    /// How many entries were skipped with a warning, or failed to append.
    pub closed spec fn warnings(&self) -> nat {
        self.warnings@
    }

    pub closed spec fn wf(&self) -> bool {
        &&& self.written as nat == saturated(self.names@.len())
        &&& self.warned as nat == saturated(self.warnings@)
    }

    /// An empty record.
    pub fn new() -> (r: ArchiveTally)
        ensures
            r.wf(),
            r.names() == Seq::<Seq<u8>>::empty(),
            r.warnings() == 0,
    {
        ArchiveTally { written: 0, warned: 0, names: Ghost(Seq::empty()), warnings: Ghost(0) }
    }

    /// Records what became of one entry: `appended` tells whether appending
    /// it succeeded. A failed append counts as a warning, as does an entry
    /// skipped with one.
    pub fn record(&mut self, action: &EntryAction, appended: bool)
        requires
            old(self).wf(),
        ensures
            final(self).wf(),
            final(self).names() == old(self).names() + recorded_names(*action, appended),
            final(self).warnings() == old(self).warnings() + match *action {
                EntryAction::Append(_) => if appended { 0nat } else { 1nat },
                EntryAction::SkipWithWarning => 1nat,
                _ => 0nat,
            },
    {
        match action {
            EntryAction::Append(n) => {
                if appended {
                    self.written = self.written.saturating_add(1);
                    self.names = Ghost(self.names@.push(n@));
                    assert(self.names@ =~= old(self).names@ + recorded_names(*action, appended));
                } else {
                    self.warned = self.warned.saturating_add(1);
                    self.warnings = Ghost(self.warnings@ + 1);
                }
            },
            EntryAction::SkipWithWarning => {
                self.warned = self.warned.saturating_add(1);
                self.warnings = Ghost(self.warnings@ + 1);
            },
            _ => {},
        }
        assert(self.names@ =~= old(self).names@ + recorded_names(*action, appended));
    }

    /// The number of entries appended (stopping at `u64::MAX`).
    pub fn written(&self) -> (r: u64)
        requires
            self.wf(),
        ensures
            r as nat == saturated(self.names().len()),
    {
        self.written
    }

    /// The number of warnings (stopping at `u64::MAX`).
    pub fn warned(&self) -> (r: u64)
        requires
            self.wf(),
        ensures
            r as nat == saturated(self.warnings()),
    {
        self.warned
    }
}

/// Recording the action owed to an item adds exactly the names that the item
/// contributes to the archive.
pub proof fn lemma_recorded_step(source: Seq<u8>, item: WalkItem, a: EntryAction, appended: bool)
    requires
        is_action_for(source, item, a),
    ensures
        recorded_names(a, appended) == step_names(source, item, appended),
{
}

/// The names of a run split over its parts.
pub proof fn lemma_archived_names_concat(
    source: Seq<u8>,
    a: Seq<(WalkItem, bool)>,
    b: Seq<(WalkItem, bool)>,
)
    ensures
        archived_names(source, a + b) == archived_names(source, a) + archived_names(source, b),
    decreases b.len(),
{
    if b.len() == 0 {
        assert(a + b =~= a);
        assert(archived_names(source, b) =~= Seq::<Seq<u8>>::empty());
        assert(archived_names(source, a) + archived_names(source, b) =~= archived_names(source, a));
    } else {
        lemma_archived_names_concat(source, a, b.drop_last());
        assert((a + b).drop_last() =~= a + b.drop_last());
        assert((a + b).last() == b.last());
        assert(archived_names(source, a + b) =~= archived_names(source, a) + archived_names(
            source,
            b,
        ));
    }
}

/// When every entry that has a name in the archive is appended, the archive
/// holds one entry for each walked item, less the source root and the items
/// that get no relative path.
pub proof fn lemma_archived_count(source: Seq<u8>, steps: Seq<(WalkItem, bool)>)
    requires
        forall|i: int|
            0 <= i < steps.len() && member_name(source, (#[trigger] steps[i]).0) is Some
                ==> steps[i].1,
    ensures
        archived_names(source, steps).len() == steps.len() - root_count(source, steps)
            - unresolved_count(source, steps),
    decreases steps.len(),
{
    if steps.len() > 0 {
        let init = steps.drop_last();
        assert forall|i: int|
            0 <= i < init.len() && member_name(source, (#[trigger] init[i]).0) is Some
                implies init[i].1 by {
            assert(init[i] == steps[i]);
        }
        lemma_archived_count(source, init);
        assert(steps.last().1 == steps[steps.len() - 1].1);
    }
}

/// An entry that cannot be appended (an unreadable file) does not abort the
/// archive, does not appear in it, and leaves every other entry in place.
pub proof fn lemma_unreadable_entry_isolated(
    source: Seq<u8>,
    before: Seq<(WalkItem, bool)>,
    file: WalkItem,
    after: Seq<(WalkItem, bool)>,
)
    requires
        file is Entry,
    ensures
        !is_fatal(file),
        archived_names(source, before + seq![(file, false)] + after) == archived_names(
            source,
            before,
        ) + archived_names(source, after),
{
    let bad = (file, false);
    lemma_archived_names_concat(source, before + seq![bad], after);
    lemma_archived_names_concat(source, before, seq![bad]);
    let one = seq![bad];
    assert(one.drop_last() =~= Seq::<(WalkItem, bool)>::empty());
    assert(one.last() == bad);
    assert(archived_names(source, Seq::<(WalkItem, bool)>::empty()) =~= Seq::<Seq<u8>>::empty());
    assert(step_names(source, file, false) =~= Seq::<Seq<u8>>::empty());
    assert(archived_names(source, one) =~= Seq::<Seq<u8>>::empty());
    assert(archived_names(source, before) + archived_names(source, one) =~= archived_names(
        source,
        before,
    ));
}

} // verus!
