//! Registry keys: how a configured path names a key, and when a key that is
//! known to exist answers for it.
//!
//! A configured path begins with the name of a hive. The rest names a key by
//! its components, which a backslash separates; a key opens where a key of the
//! same hive exists at or below it.

use crate::text::{
    begins_with, chars_of, copy_range, lemma_position_of, matches_at, position_of, rows_of,
    same_chars, scan_to, starts_with,
};
use vstd::prelude::*;

verus! {

/// The two hives in which keys are looked for.
#[derive(Clone, Copy, Debug, PartialEq, Eq, Structural)]
pub enum RegistryHive {
    LocalMachine,
    CurrentUser,
}

/// A key: its hive and its path below the hive.
#[derive(Clone, Debug, PartialEq, Eq)]
pub struct RegistryKey {
    pub hive: RegistryHive,
    pub path: String,
}

/// The view of a key.
pub struct KeyModel {
    pub hive: RegistryHive,
    pub path: Seq<char>,
}

impl View for RegistryKey {
    type V = KeyModel;

    open spec fn view(&self) -> KeyModel {
        KeyModel { hive: self.hive, path: self.path@ }
    }
}

/// The views of `keys`, in order.
pub open spec fn keys_of(keys: Seq<RegistryKey>) -> Seq<KeyModel> {
    Seq::new(keys.len(), |i: int| keys[i]@)
}

/// The name with which a configured path of the hive begins.
pub open spec fn hive_name(hive: RegistryHive) -> Seq<char> {
    match hive {
        RegistryHive::LocalMachine => "HKEY_LOCAL_MACHINE"@,
        RegistryHive::CurrentUser => "HKEY_CURRENT_USER"@,
    }
}

/// The name of the hive and the backslash after it.
pub open spec fn hive_prefix(hive: RegistryHive) -> Seq<char> {
    hive_name(hive).push('\\')
}

/// `s` without `prefix` at its start, as often as it stands there.
pub open spec fn strip_repeated(s: Seq<char>, prefix: Seq<char>) -> Seq<char>
    decreases s.len(),
{
    if prefix.len() > 0 && starts_with(s, prefix) {
        strip_repeated(s.skip(prefix.len() as int), prefix)
    } else {
        s
    }
}

/// The key that a configured path names: the hive whose name the path begins
/// with, the local machine first, and the path without the hive's name and
/// backslash at its start. A path that begins with neither name names no key.
pub open spec fn registry_target(path: Seq<char>) -> Option<KeyModel> {
    if starts_with(path, hive_name(RegistryHive::LocalMachine)) {
        Some(
            KeyModel {
                hive: RegistryHive::LocalMachine,
                path: strip_repeated(path, hive_prefix(RegistryHive::LocalMachine)),
            },
        )
    } else if starts_with(path, hive_name(RegistryHive::CurrentUser)) {
        Some(
            KeyModel {
                hive: RegistryHive::CurrentUser,
                path: strip_repeated(path, hive_prefix(RegistryHive::CurrentUser)),
            },
        )
    } else {
        None
    }
}

/// The components of a path: what stands between its backslashes, without
/// the empty pieces.
pub open spec fn components(path: Seq<char>) -> Seq<Seq<char>>
    decreases path.len(),
{
    if path.len() == 0 {
        Seq::empty()
    } else {
        let n = position_of(path, '\\') as int;
        let rest = if n >= path.len() {
            Seq::empty()
        } else {
            components(path.skip(n + 1))
        };
        if n == 0 {
            rest
        } else {
            seq![path.take(n)] + rest
        }
    }
}

/// `existing` lies at or below `target`: in the same hive, and with the
/// components of `target` as its first components.
pub open spec fn key_covers(target: KeyModel, existing: KeyModel) -> bool {
    target.hive == existing.hive && components(target.path).is_prefix_of(
        components(existing.path),
    )
}

/// `target` opens: one of the keys `present` lies at or below it.
pub open spec fn key_opens(target: KeyModel, present: Seq<KeyModel>) -> bool {
    exists|k: int| 0 <= k < present.len() && key_covers(target, #[trigger] present[k])
}

/// No component is empty, and none holds a backslash.
pub proof fn law_components(path: Seq<char>)
    ensures
        forall|i: int|
            0 <= i < components(path).len() ==> (#[trigger] components(path)[i]).len() > 0,
        forall|i: int, k: int|
            0 <= i < components(path).len() && 0 <= k < components(path)[i].len() ==> (
            #[trigger] components(path)[i][k]) != '\\',
    decreases path.len(),
{
    lemma_position_of(path, '\\');
    if path.len() > 0 {
        let n = position_of(path, '\\') as int;
        let rest = if n >= path.len() {
            Seq::<Seq<char>>::empty()
        } else {
            components(path.skip(n + 1))
        };
        if n < path.len() {
            law_components(path.skip(n + 1));
        }
        let head = path.take(n);
        assert forall|i: int| 0 <= i < components(path).len() implies (#[trigger] components(
            path,
        )[i]).len() > 0 && forall|k: int|
            0 <= k < components(path)[i].len() ==> components(path)[i][k] != '\\' by {
            if n == 0 {
                assert(components(path)[i] == rest[i]);
            } else if i == 0 {
                assert(components(path)[0] == head);
                assert forall|k: int| 0 <= k < head.len() implies head[k] != '\\' by {
                    assert(head[k] == path[k]);
                }
            } else {
                assert(components(path)[i] == rest[i - 1]);
            }
        }
    }
}

/// A key lies at or below itself, and what lies at or below a key lies at or
/// below every key above that one.
pub proof fn law_key_covers(target: KeyModel, middle: KeyModel, existing: KeyModel)
    ensures
        key_covers(target, target),
        key_covers(target, middle) && key_covers(middle, existing) ==> key_covers(target, existing),
{
    let t = components(target.path);
    assert(t.subrange(0, t.len() as int) =~= t);
    if key_covers(target, middle) && key_covers(middle, existing) {
        let m = components(middle.path);
        let e = components(existing.path);
        assert(t =~= e.subrange(0, t.len() as int)) by {
            assert forall|i: int| 0 <= i < t.len() implies t[i] == e[i] by {
                assert(t[i] == m.subrange(0, t.len() as int)[i]);
                assert(m[i] == e.subrange(0, m.len() as int)[i]);
            }
        }
    }
}

/// The name of `hive`, as characters.
pub fn hive_name_chars(hive: RegistryHive) -> (name: Vec<char>)
    ensures
        name@ == hive_name(hive),
{
    match hive {
        RegistryHive::LocalMachine => chars_of("HKEY_LOCAL_MACHINE"),
        RegistryHive::CurrentUser => chars_of("HKEY_CURRENT_USER"),
    }
}

/// How many characters of `s` the repetitions of `prefix` at its start take.
pub fn repeated_prefix_len(s: &Vec<char>, prefix: &Vec<char>) -> (n: usize)
    ensures
        n <= s.len(),
        s@.skip(n as int) == strip_repeated(s@, prefix@),
{
    let mut pos: usize = 0;
    proof {
        assert(s@.skip(0) =~= s@);
    }
    if prefix.len() == 0 {
        return 0;
    }
    while matches_at(s, prefix, pos)
        invariant
            prefix.len() > 0,
            pos <= s.len(),
            strip_repeated(s@, prefix@) == strip_repeated(s@.skip(pos as int), prefix@),
        decreases s.len() - pos,
    {
        proof {
            let rest = s@.skip(pos as int);
            assert(rest.subrange(0, prefix@.len() as int) =~= s@.subrange(
                pos as int,
                pos + prefix@.len(),
            ));
            assert(starts_with(rest, prefix@));
            assert(rest.skip(prefix@.len() as int) =~= s@.skip(pos + prefix@.len()));
        }
        pos += prefix.len();
    }
    proof {
        let rest = s@.skip(pos as int);
        if prefix@.len() <= rest.len() {
            assert(rest.subrange(0, prefix@.len() as int) =~= s@.subrange(
                pos as int,
                pos + prefix@.len(),
            ));
        }
        assert(!starts_with(rest, prefix@));
    }
    pos
}

/// The key that the configured path `path` names, if it names one.
pub fn parse_registry_path(path: &str) -> (key: Option<RegistryKey>)
    ensures
        key matches Some(k) ==> registry_target(path@) == Some(k@),
        key is None ==> registry_target(path@) is None,
{
    let chars = chars_of(path);
    let hive = if begins_with(&chars, &hive_name_chars(RegistryHive::LocalMachine)) {
        RegistryHive::LocalMachine
    } else if begins_with(&chars, &hive_name_chars(RegistryHive::CurrentUser)) {
        RegistryHive::CurrentUser
    } else {
        return None;
    };
    let mut prefix = hive_name_chars(hive);
    prefix.push('\\');
    let skip = repeated_prefix_len(&chars, &prefix);
    let rest = path.substring_char(skip, chars.len());
    proof {
        assert(path@.subrange(skip as int, path@.len() as int) =~= path@.skip(skip as int));
    }
    Some(RegistryKey { hive, path: rest.to_owned() })
}

/// The components of `path`.
pub fn split_components(path: &Vec<char>) -> (out: Vec<Vec<char>>)
    ensures
        rows_of(out@) == components(path@),
{
    let n: usize = path.len();
    let mut out: Vec<Vec<char>> = Vec::new();
    let mut pos: usize = 0;
    proof {
        assert(path@.skip(0) =~= path@);
        assert(rows_of(out@) + components(path@) =~= components(path@));
    }
    while pos < n
        invariant
            n == path.len(),
            pos <= n,
            components(path@) == rows_of(out@) + components(path@.skip(pos as int)),
        decreases n - pos,
    {
        let ghost rest = path@.skip(pos as int);
        let ghost before = rows_of(out@);
        let end: usize = scan_to(path, pos, '\\');
        proof {
            assert(rest.take(end - pos) =~= path@.subrange(pos as int, end as int));
            if end < n {
                assert(rest.skip(end - pos + 1) =~= path@.skip(end + 1));
            } else {
                assert(path@.skip(n as int).len() == 0);
            }
        }
        if end > pos {
            let piece = copy_range(path, pos, end);
            out.push(piece);
            proof {
                assert(rows_of(out@) =~= before.push(rest.take(end - pos)));
            }
        }
        let ghost tail = if end < n {
            components(path@.skip(end + 1))
        } else {
            Seq::<Seq<char>>::empty()
        };
        proof {
            assert(components(rest) =~= if end == pos {
                tail
            } else {
                seq![rest.take(end - pos)] + tail
            });
            assert(components(path@) =~= rows_of(out@) + tail);
        }
        if end < n {
            pos = end + 1;
        } else {
            pos = n;
        }
    }
    proof {
        assert(path@.skip(pos as int).len() == 0);
        assert(components(path@) =~= rows_of(out@));
    }
    out
}

/// Whether the rows `first` are the first rows of `all`.
pub fn rows_begin_with(all: &Vec<Vec<char>>, first: &Vec<Vec<char>>) -> (found: bool)
    ensures
        found == rows_of(first@).is_prefix_of(rows_of(all@)),
{
    if first.len() > all.len() {
        return false;
    }
    let mut i: usize = 0;
    while i < first.len()
        invariant
            first.len() <= all.len(),
            i <= first.len(),
            forall|k: int| 0 <= k < i ==> rows_of(first@)[k] == rows_of(all@)[k],
        decreases first.len() - i,
    {
        if !same_chars(&first[i], &all[i]) {
            assert(rows_of(all@).subrange(0, first@.len() as int)[i as int] == rows_of(
                all@,
            )[i as int]);
            return false;
        }
        i += 1;
    }
    assert(rows_of(first@) =~= rows_of(all@).subrange(0, first@.len() as int));
    true
}

/// Whether `existing` lies at or below `target`.
pub fn covers(target: &RegistryKey, existing: &RegistryKey) -> (found: bool)
    ensures
        found == key_covers(target@, existing@),
{
    if target.hive != existing.hive {
        return false;
    }
    let wanted = split_components(&chars_of(target.path.as_str()));
    let found = split_components(&chars_of(existing.path.as_str()));
    rows_begin_with(&found, &wanted)
}

/// Whether `target` opens, given the keys `present`.
pub fn opens(target: &RegistryKey, present: &Vec<RegistryKey>) -> (found: bool)
    ensures
        found == key_opens(target@, keys_of(present@)),
{
    let mut k: usize = 0;
    while k < present.len()
        invariant
            k <= present.len(),
            forall|j: int| 0 <= j < k ==> !key_covers(target@, #[trigger] keys_of(present@)[j]),
        decreases present.len() - k,
    {
        if covers(target, &present[k]) {
            assert(key_covers(target@, keys_of(present@)[k as int]));
            return true;
        }
        k += 1;
    }
    false
}

} // verus!
