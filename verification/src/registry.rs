//! The registry of stacks: what the entries of the stacks root say about
//! which identifiers are in use, and which identifier comes next.

use vstd::prelude::*;
use vstd::slice::slice_subrange;
use crate::errors::{Invalid, StackError};
use crate::text::{
    ascii, decimal_digits, decimal_text, decimal_value, is_canonical_decimal,
    lemma_canonical_decimal_unique, lemma_decimal_digits_value, literal, parse_decimal,
    push_bytes, push_decimal, starts_with, to_vec, ZERO,
};

verus! {

/// What is known of one entry of the stacks root.
#[derive(Debug, PartialEq, Eq)]
pub struct DirEntry {
    /// The entry's file name.
    pub name: Vec<u8>,
    /// Whether the entry is a directory.
    pub is_dir: bool,
    /// Whether the entry holds a compose manifest.
    pub has_manifest: bool,
}

/// The name of the directory of stack `id`.
pub open spec fn stack_dir_name(id: int) -> Seq<u8> {
    ascii("stack_") + decimal_text(id)
}

/// The identifier that a text stands for: the text is the shortest decimal
/// form of a number from 1 to `i32::MAX`.
pub open spec fn text_id(text: Seq<u8>) -> Option<i32> {
    if is_canonical_decimal(text) && 0 < decimal_value(text) <= i32::MAX {
        Some(decimal_value(text) as i32)
    } else {
        None
    }
}

/// The identifier that a directory name stands for: the name is `stack_`
/// followed by the text of an identifier.
pub open spec fn named_id(name: Seq<u8>) -> Option<i32> {
    if ascii("stack_").is_prefix_of(name) {
        text_id(name.skip(6))
    } else {
        None
    }
}

/// A text stands for `id` exactly if `id` is positive and the text is its
/// decimal form.
pub proof fn lemma_text_id_iff_decimal(text: Seq<u8>, id: i32)
    ensures
        text_id(text) == Some(id) <==> id > 0 && text == decimal_text(id as int),
{
    if text_id(text) == Some(id) {
        lemma_canonical_decimal_unique(text);
    }
    if id > 0 && text == decimal_text(id as int) {
        lemma_decimal_digits_value(id as nat);
    }
}

/// A name stands for `id` exactly if `id` is positive and the name is that of
/// the directory of stack `id`.
pub proof fn lemma_named_id_iff_dir_name(name: Seq<u8>, id: i32)
    ensures
        named_id(name) == Some(id) <==> id > 0 && name == stack_dir_name(id as int),
{
    reveal_strlit("stack_");
    let prefix = ascii("stack_");
    if named_id(name) == Some(id) {
        let digits = name.skip(6);
        lemma_canonical_decimal_unique(digits);
        assert(name =~= prefix + digits);
    }
    if id > 0 && name == stack_dir_name(id as int) {
        lemma_decimal_digits_value(id as nat);
        assert(name.skip(6) =~= decimal_digits(id as nat));
    }
}

/// No two stacks share a directory.
pub proof fn lemma_stack_dirs_differ(i: i32, j: i32)
    requires
        0 < i,
        0 < j,
        i != j,
    ensures
        stack_dir_name(i as int) != stack_dir_name(j as int),
{
    lemma_named_id_iff_dir_name(stack_dir_name(i as int), i);
    lemma_named_id_iff_dir_name(stack_dir_name(j as int), j);
}

/// Builds the name of the directory of stack `id`.
pub fn stack_dir(id: i32) -> (r: Vec<u8>)
    ensures
        r@ == stack_dir_name(id as int),
{
    proof {
        reveal_strlit("stack_");
    }
    let mut out = to_vec(literal("stack_"));
    push_decimal(&mut out, id as i64);
    out
}

/// Reads the identifier that a directory name stands for.
pub fn stack_id_of(name: &[u8]) -> (r: Option<i32>)
    ensures
        r == named_id(name@),
{
    proof {
        reveal_strlit("stack_");
    }
    if !starts_with(name, literal("stack_")) {
        return None;
    }
    let digits = slice_subrange(name, 6, name.len());
    parse_stack_id(digits)
}

/// Reads the identifier that a text stands for.
pub fn parse_stack_id(text: &[u8]) -> (r: Option<i32>)
    ensures
        r == text_id(text@),
{
    if text.len() > 1 && text[0] == ZERO {
        return None;
    }
    match parse_decimal(text) {
        Some(id) => if id > 0 {
            Some(id)
        } else {
            None
        },
        None => None,
    }
}

/// The identifiers in `v`, as a set.
pub open spec fn ids_of(v: Seq<i32>) -> Set<int> {
    Set::new(|id: int| exists|k: int| 0 <= k < v.len() && #[trigger] v[k] == id)
}

/// `v` rises strictly: it is sorted and nothing occurs twice.
pub open spec fn is_ascending(v: Seq<i32>) -> bool {
    forall|i: int, j: int| 0 <= i < j < v.len() ==> v[i] < v[j]
}

/// A strictly rising list holds as many identifiers as it is long.
pub proof fn lemma_ascending_count(v: Seq<i32>)
    requires
        is_ascending(v),
    ensures
        ids_of(v).finite(),
        ids_of(v).len() == v.len(),
    decreases v.len(),
{
    if v.len() == 0 {
        assert(ids_of(v) =~= Set::<int>::empty());
    } else {
        let p = v.drop_last();
        lemma_ascending_count(p);
        assert(ids_of(v) =~= ids_of(p).insert(v.last() as int)) by {
            assert forall|id: int| ids_of(v).contains(id) implies ids_of(p).insert(
                v.last() as int,
            ).contains(id) by {
                let k = choose|k: int| 0 <= k < v.len() && #[trigger] v[k] == id;
                if k < p.len() {
                    assert(p[k] == id);
                }
            }
        }
    }
}

/// Puts `id` in its place in a strictly rising list, unless it is there.
fn insert_ascending(v: &mut Vec<i32>, id: i32)
    requires
        is_ascending(old(v)@),
    ensures
        is_ascending(final(v)@),
        ids_of(final(v)@) == ids_of(old(v)@).insert(id as int),
        forall|k: int| 0 <= k < old(v)@.len() ==> ids_of(final(v)@).contains(old(v)@[k] as int),
{
    let mut k: usize = 0;
    while k < v.len() && v[k] < id
        invariant
            0 <= k <= v.len(),
            v@ == old(v)@,
            forall|j: int| 0 <= j < k ==> v@[j] < id,
        decreases v.len() - k,
    {
        k = k + 1;
    }
    let ghost a = v@;
    if !(k < v.len() && v[k] == id) {
        v.insert(k, id);
        let ghost b = v@;
        assert(ids_of(b) =~= ids_of(a).insert(id as int)) by {
            assert forall|x: int| ids_of(a).insert(id as int).contains(x) implies ids_of(
                b,
            ).contains(x) by {
                if x == id {
                    assert(b[k as int] == x);
                } else {
                    let j = choose|j: int| 0 <= j < a.len() && #[trigger] a[j] == x;
                    if j < k {
                        assert(b[j] == x);
                    } else {
                        assert(b[j + 1] == x);
                    }
                }
            }
        }
    }
}

/// The identifier that an entry stands for. With `declared_only`, an entry
/// counts only if it is a directory that holds a manifest; without, whatever
/// bears the name of a stack directory counts.
pub open spec fn entry_id(e: DirEntry, declared_only: bool) -> Option<i32> {
    if declared_only && !(e.is_dir && e.has_manifest) {
        None
    } else {
        named_id(e.name@)
    }
}

/// The entry stands for the identifier `id`.
pub open spec fn stands_for(e: DirEntry, declared_only: bool, id: int) -> bool {
    match entry_id(e, declared_only) {
        Some(v) => v == id,
        None => false,
    }
}

/// The identifiers that the entries stand for. Entries that stand for none are
/// passed over.
pub open spec fn stacks_in(entries: Seq<DirEntry>, declared_only: bool) -> Set<int> {
    Set::new(
        |id: int|
            exists|i: int|
                0 <= i < entries.len() && stands_for(#[trigger] entries[i], declared_only, id),
    )
}

/// The identifiers in use: those that an entry of the root bears in its name,
/// with or without a manifest. A new stack must not take one of these.
pub open spec fn occupied(entries: Seq<DirEntry>) -> Set<int> {
    stacks_in(entries, false)
}

/// The declared stacks: those whose directory exists and holds a manifest.
pub open spec fn declared(entries: Seq<DirEntry>) -> Set<int> {
    stacks_in(entries, true)
}

/// Every declared stack occupies its identifier.
pub proof fn lemma_declared_is_occupied(entries: Seq<DirEntry>)
    ensures
        declared(entries).subset_of(occupied(entries)),
{
}

/// One more entry adds its identifier, if it stands for one.
proof fn lemma_stacks_in_step(entries: Seq<DirEntry>, i: int, declared_only: bool)
    requires
        0 <= i < entries.len(),
    ensures
        stacks_in(entries.take(i + 1), declared_only) == match entry_id(entries[i], declared_only) {
            Some(v) => stacks_in(entries.take(i), declared_only).insert(v as int),
            None => stacks_in(entries.take(i), declared_only),
        },
{
    let before = entries.take(i);
    let now = entries.take(i + 1);
    let expected = match entry_id(entries[i], declared_only) {
        Some(v) => stacks_in(before, declared_only).insert(v as int),
        None => stacks_in(before, declared_only),
    };
    assert forall|id: int| expected.contains(id) implies stacks_in(now, declared_only).contains(
        id,
    ) by {
        if !stacks_in(before, declared_only).contains(id) {
            assert(now[i] == entries[i]);
        }
    }
}

/// `m` belongs to `s` and nothing in `s` is above it.
pub open spec fn is_highest(s: Set<int>, m: int) -> bool {
    s.contains(m) && forall|x: int| s.contains(x) ==> x <= m
}

/// The highest identifier in `s`, or 0 where `s` has none.
pub open spec fn highest(s: Set<int>) -> int {
    if exists|m: int| is_highest(s, m) {
        choose|m: int| is_highest(s, m)
    } else {
        0
    }
}

/// The identifier of the next stack: one above the highest in use, and 1
/// where none is in use.
pub open spec fn next_id(s: Set<int>) -> int {
    highest(s) + 1
}

/// The highest element is unique.
pub proof fn lemma_highest_is(s: Set<int>, m: int)
    requires
        is_highest(s, m),
    ensures
        highest(s) == m,
{
}

/// The empty set has no highest element, and `highest` gives 0 for it.
pub proof fn lemma_highest_of_empty(s: Set<int>)
    requires
        forall|x: int| !s.contains(x),
    ensures
        highest(s) == 0,
{
}

/// A finite set that is not empty has a highest element.
pub proof fn lemma_highest_exists(s: Set<int>)
    requires
        s.finite(),
        s.len() > 0,
    ensures
        is_highest(s, highest(s)),
    decreases s.len(),
{
    let a = s.choose();
    let rest = s.remove(a);
    if rest.len() == 0 {
        lemma_highest_is(s, a);
    } else {
        lemma_highest_exists(rest);
        let m = highest(rest);
        let top = if a > m {
            a
        } else {
            m
        };
        lemma_highest_is(s, top);
    }
}

/// The next identifier is in nobody's use, and lies above all that are.
pub proof fn lemma_next_id_is_fresh(s: Set<int>)
    requires
        s.finite(),
    ensures
        !s.contains(next_id(s)),
        forall|x: int| s.contains(x) ==> x < next_id(s),
{
    if s.len() > 0 {
        lemma_highest_exists(s);
    }
}

/// A set of stack identifiers, read from the entries of the stacks root.
pub struct Registry {
    ids: Vec<i32>,
}

impl View for Registry {
    type V = Set<int>;

    closed spec fn view(&self) -> Set<int> {
        ids_of(self.ids@)
    }
}

impl Registry {
    /// The identifiers are kept strictly rising, and all are positive.
    #[verifier::type_invariant]
    spec fn well_formed(self) -> bool {
        &&& is_ascending(self.ids@)
        &&& forall|k: int| 0 <= k < self.ids@.len() ==> self.ids@[k] > 0
    }

    fn scan(entries: &Vec<DirEntry>, declared_only: bool) -> (r: Registry)
        ensures
            r@ == stacks_in(entries@, declared_only),
            r@.finite(),
    {
        let mut ids: Vec<i32> = Vec::new();
        let mut i: usize = 0;
        while i < entries.len()
            invariant
                0 <= i <= entries.len(),
                is_ascending(ids@),
                forall|k: int| 0 <= k < ids@.len() ==> ids@[k] > 0,
                ids_of(ids@) == stacks_in(entries@.take(i as int), declared_only),
            decreases entries.len() - i,
        {
            proof {
                lemma_stacks_in_step(entries@, i as int, declared_only);
            }
            let entry = &entries[i];
            if !declared_only || (entry.is_dir && entry.has_manifest) {
                match stack_id_of(entry.name.as_slice()) {
                    Some(id) => {
                        insert_ascending(&mut ids, id);
                        assert forall|k: int| 0 <= k < ids@.len() implies ids@[k] > 0 by {
                            assert(ids_of(ids@).contains(ids@[k] as int));
                        }
                    },
                    None => {},
                }
            }
            i = i + 1;
        }
        assert(entries@.take(i as int) =~= entries@);
        proof {
            lemma_ascending_count(ids@);
        }
        Registry { ids }
    }

    /// Reads the identifiers in use from the entries of the stacks root.
    pub fn occupied(entries: &Vec<DirEntry>) -> (r: Registry)
        ensures
            r@ == occupied(entries@),
            r@.finite(),
    {
        Registry::scan(entries, false)
    }

    /// Reads the declared stacks from the entries of the stacks root.
    pub fn declared(entries: &Vec<DirEntry>) -> (r: Registry)
        ensures
            r@ == declared(entries@),
            r@.finite(),
    {
        Registry::scan(entries, true)
    }

    /// The number of identifiers.
    pub fn len(&self) -> (n: usize)
        ensures
            self@.finite(),
            n == self@.len(),
    {
        proof {
            use_type_invariant(self);
            lemma_ascending_count(self.ids@);
        }
        self.ids.len()
    }

    /// Whether there is no identifier at all.
    pub fn is_empty(&self) -> (r: bool)
        ensures
            r == (self@ == Set::<int>::empty()),
    {
        proof {
            if self.ids@.len() > 0 {
                assert(ids_of(self.ids@).contains(self.ids@[0] as int));
            } else {
                assert(ids_of(self.ids@) =~= Set::<int>::empty());
            }
        }
        self.ids.len() == 0
    }

    /// The identifiers, lowest first, each once.
    pub fn ids(&self) -> (v: Vec<i32>)
        ensures
            is_ascending(v@),
            ids_of(v@) == self@,
            forall|k: int| 0 <= k < v@.len() ==> v@[k] > 0,
    {
        proof {
            use_type_invariant(self);
        }
        let v = self.ids.clone();
        v
    }

    /// The highest identifier, or 0 where there is none.
    pub fn highest(&self) -> (m: i32)
        ensures
            m == highest(self@),
            m >= 0,
    {
        proof {
            use_type_invariant(self);
        }
        let n = self.ids.len();
        if n == 0 {
            0
        } else {
            let m = self.ids[n - 1];
            proof {
                lemma_highest_is(self@, m as int);
            }
            m
        }
    }

    /// The identifier for the next stack: one above the highest in use. It is
    /// refused only where the highest in use is `i32::MAX`.
    pub fn next_id(&self) -> (r: Result<i32, StackError>)
        ensures
            r is Ok <==> highest(self@) < i32::MAX,
            r matches Ok(id) ==> id == next_id(self@) && id > 0 && !self@.contains(id as int),
            r matches Err(e) ==> e == StackError::ValidationError(Invalid::IdsExhausted),
    {
        let m = self.highest();
        if m == i32::MAX {
            Err(StackError::ValidationError(Invalid::IdsExhausted))
        } else {
            proof {
                use_type_invariant(self);
                lemma_ascending_count(self.ids@);
                lemma_next_id_is_fresh(self@);
            }
            Ok(m + 1)
        }
    }
}

/// The slash between the parts of a path.
pub const SLASH: u8 = 47;

/// `name` under the directory `base`: joined by one slash, unless `base` is
/// empty or ends with a slash already.
pub open spec fn joined(base: Seq<u8>, name: Seq<u8>) -> Seq<u8> {
    if base.len() == 0 || base.last() == SLASH {
        base + name
    } else {
        base + seq![SLASH] + name
    }
}

/// Joins a directory and a name into a path.
pub fn join_path(base: &[u8], name: &[u8]) -> (r: Vec<u8>)
    ensures
        r@ == joined(base@, name@),
{
    let mut out = to_vec(base);
    if base.len() > 0 && base[base.len() - 1] != SLASH {
        out.push(SLASH);
    }
    push_bytes(&mut out, name);
    out
}

/// The path of the directory of stack `id` under `root`.
pub open spec fn stack_path(root: Seq<u8>, id: int) -> Seq<u8> {
    joined(root, stack_dir_name(id))
}

/// The path of the configuration file of stack `id` under `root`.
pub open spec fn config_path(root: Seq<u8>, id: int) -> Seq<u8> {
    joined(stack_path(root, id), ascii(".env"))
}

/// The path of the manifest of stack `id` under `root`.
pub open spec fn manifest_path(root: Seq<u8>, id: int) -> Seq<u8> {
    joined(stack_path(root, id), ascii("compose.yaml"))
}

/// Builds the path of the directory of stack `id` under `root`.
pub fn stack_dir_path(root: &[u8], id: i32) -> (r: Vec<u8>)
    ensures
        r@ == stack_path(root@, id as int),
{
    let name = stack_dir(id);
    join_path(root, name.as_slice())
}

/// Builds the path of the configuration file of stack `id` under `root`.
pub fn config_file_path(root: &[u8], id: i32) -> (r: Vec<u8>)
    ensures
        r@ == config_path(root@, id as int),
{
    proof {
        reveal_strlit(".env");
    }
    let dir = stack_dir_path(root, id);
    join_path(dir.as_slice(), literal(".env"))
}

/// Builds the path of the manifest in the directory `dir`.
pub fn manifest_in(dir: &[u8]) -> (r: Vec<u8>)
    ensures
        r@ == joined(dir@, ascii("compose.yaml")),
{
    proof {
        reveal_strlit("compose.yaml");
    }
    join_path(dir, literal("compose.yaml"))
}

/// Builds the path of the manifest of stack `id` under `root`.
pub fn get_compose_file_path(root: &[u8], id: i32) -> (r: Vec<u8>)
    ensures
        r@ == manifest_path(root@, id as int),
{
    let dir = stack_dir_path(root, id);
    manifest_in(dir.as_slice())
}

} // verus!
