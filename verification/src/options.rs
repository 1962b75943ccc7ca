//! The text of the client's options.txt file

use vstd::prelude::*;

use crate::order::{sorted, views, SortKey};
use crate::strmap::StrMap;
use crate::text::{i64_to_decimal, int_decimal, owned, string_push, string_push_str};

verus! {

/// The separator between the key and the value of an option
pub const SEP: char = ':';

/// The line of an option: its key, the separator, its value and a line break.
pub open spec fn option_line(key: Seq<char>, value: Seq<char>) -> Seq<char> {
    key + seq![SEP] + value + seq!['\n']
}

/// The lines of the options, in order.
pub open spec fn option_lines(entries: Seq<(Seq<char>, Seq<char>)>) -> Seq<char>
    decreases entries.len(),
{
    if entries.len() == 0 {
        Seq::empty()
    } else {
        option_lines(entries.drop_last()) + option_line(entries.last().0, entries.last().1)
    }
}

/// The options as (key, value) pairs, in the order their keys were added.
pub open spec fn option_entries(options: StrMap<String>) -> Seq<(Seq<char>, Seq<char>)> {
    options.keys().map_values(|k: Seq<char>| (k, options.map()[k]@))
}

/// The key under which the data version of the game is written.
pub open spec fn version_key() -> Seq<char> {
    seq!['v', 'e', 'r', 's', 'i', 'o', 'n']
}

/// The line that writes an option
pub fn write_key(key: &str, value: &str) -> (r: String)
    ensures
        r@ == option_line(key@, value@),
{
    let mut line = owned(key);
    string_push(&mut line, SEP);
    string_push_str(&mut line, value);
    string_push(&mut line, '\n');
    proof {
        assert(line@ =~= option_line(key@, value@));
    }
    line
}

/// Adds the data version to the options. Does not overwrite it if it already exists
pub fn add_data_version_field(options: &mut StrMap<String>, data_version: Option<i32>)
    ensures
        old(options).map().contains_key(version_key()) || data_version is None ==> final(options).map()
            == old(options).map(),
        !old(options).map().contains_key(version_key()) && data_version is Some ==> {
            &&& final(options).map().contains_key(version_key())
            &&& final(options).map()[version_key()]@ == int_decimal(data_version->0 as int)
            &&& final(options).map().remove(version_key()) == old(options).map()
        },
{
    let key = "version";
    proof {
        reveal_strlit("version");
        assert(key@ =~= version_key());
    }
    if options.contains_key(key) {
        return;
    }
    if let Some(data_version) = data_version {
        let value = i64_to_decimal(data_version as i64);
        options.insert(owned(key), value);
        proof {
            assert(options.map().remove(version_key()) =~= old(options).map());
        }
    }
}

/// The text of a resource pack list entry: the name in quotes and a comma.
pub open spec fn quoted_names(names: Seq<Seq<char>>) -> Seq<char>
    decreases names.len(),
{
    if names.len() == 0 {
        Seq::empty()
    } else {
        quoted_names(names.drop_last()) + seq!['"'] + names.last() + seq!['"', ',']
    }
}

/// Creates the string for the list of resource packs
pub fn write_resource_packs(resource_packs: &[String]) -> (r: String)
    ensures
        r@ == seq!['['] + quoted_names(views(resource_packs@)) + seq![']'],
{
    let mut out = owned("[");
    proof {
        reveal_strlit("[");
        assert(views(resource_packs@).take(0) =~= Seq::<Seq<char>>::empty());
        assert(out@ =~= seq!['['] + quoted_names(views(resource_packs@).take(0)));
    }
    let mut i: usize = 0;
    while i < resource_packs.len()
        invariant
            i <= resource_packs@.len(),
            out@ == seq!['['] + quoted_names(views(resource_packs@).take(i as int)),
        decreases resource_packs@.len() - i,
    {
        let ghost before = out@;
        string_push(&mut out, '"');
        string_push_str(&mut out, resource_packs[i].as_str());
        string_push(&mut out, '"');
        string_push(&mut out, ',');
        proof {
            let names = views(resource_packs@);
            assert(names.take(i + 1).drop_last() =~= names.take(i as int));
            assert(names.take(i + 1).last() == resource_packs@[i as int]@);
            assert(out@ =~= seq!['['] + quoted_names(names.take(i + 1)));
        }
        i = i + 1;
    }
    string_push(&mut out, ']');
    proof {
        assert(views(resource_packs@).take(resource_packs@.len() as int) =~= views(resource_packs@));
    }
    out
}

/// Merges new option keys into those of an existing file; the new values win
pub fn merge_options(file_keys: &mut StrMap<String>, keys: &StrMap<String>)
    ensures
        final(file_keys).map() == old(file_keys).map().union_prefer_right(keys.map()),
{
    let entries = keys.entries();
    let ghost start = file_keys.map();
    let ghost ks = keys.keys();
    proof {
        keys.lemma_keys();
        assert(keys.map().restrict(Set::new(|k: Seq<char>| exists|j: int| 0 <= j < 0 && ks[j] == k))
            =~= Map::<Seq<char>, String>::empty());
        assert(start.union_prefer_right(Map::<Seq<char>, String>::empty()) =~= start);
    }
    let mut i: usize = 0;
    while i < entries.len()
        invariant
            i <= entries@.len(),
            ks == crate::strmap::keys_of(entries@),
            ks == keys.keys(),
            forall|j: int| 0 <= j < entries@.len() ==> #[trigger] keys.map()[entries@[j].0@] == entries@[j].1,
            forall|k: Seq<char>| #[trigger] keys.map().contains_key(k) <==> ks.contains(k),
            file_keys.map() == start.union_prefer_right(
                keys.map().restrict(Set::new(|k: Seq<char>| exists|j: int| 0 <= j < i && ks[j] == k)),
            ),
        decreases entries@.len() - i,
    {
        let ghost before = file_keys.map();
        let key = entries[i].0.clone();
        let value = entries[i].1.clone();
        file_keys.insert(key, value);
        proof {
            assert(ks[i as int] == entries@[i as int].0@);
            assert(file_keys.map() =~= start.union_prefer_right(
                keys.map().restrict(Set::new(|k: Seq<char>| exists|j: int| 0 <= j < i + 1 && ks[j] == k)),
            )) by {
                assert forall|k: Seq<char>| #[trigger] file_keys.map().contains_key(k) == start.union_prefer_right(
                    keys.map().restrict(Set::new(|k: Seq<char>| exists|j: int| 0 <= j < i + 1 && ks[j] == k)),
                ).contains_key(k) by {
                    if k == ks[i as int] {
                        assert(ks.contains(k));
                    }
                    if exists|j: int| 0 <= j < i + 1 && ks[j] == k {
                        let j = choose|j: int| 0 <= j < i + 1 && ks[j] == k;
                        assert(ks.contains(k));
                    }
                }
            }
        }
        i = i + 1;
    }
    proof {
        assert(keys.map().restrict(Set::new(|k: Seq<char>| exists|j: int| 0 <= j < entries@.len() && ks[j] == k))
            =~= keys.map()) by {
            assert forall|k: Seq<char>| #[trigger] keys.map().contains_key(k) implies exists|j: int|
                0 <= j < entries@.len() && ks[j] == k by {
                let j = choose|j: int| 0 <= j < ks.len() && ks[j] == k;
            }
        }
    }
}

/// The contents of options.txt: each option on its own line, by ascending key
pub fn options_file_contents(options: &StrMap<String>) -> (r: String)
    ensures
        r@ == option_lines(option_entries(*options).sort_by(<(String, String)>::key_order())),
{
    let entries = options.entries();
    let mut pairs: Vec<(String, String)> = Vec::new();
    let mut i: usize = 0;
    while i < entries.len()
        invariant
            i <= entries@.len(),
            crate::strmap::keys_of(entries@) == options.keys(),
            forall|j: int| 0 <= j < entries@.len() ==> #[trigger] options.map()[entries@[j].0@] == entries@[j].1,
            views(pairs@) == option_entries(*options).take(i as int),
        decreases entries@.len() - i,
    {
        let ghost before = views(pairs@);
        pairs.push((entries[i].0.clone(), entries[i].1.clone()));
        proof {
            let e = entries@[i as int];
            assert(options.keys()[i as int] == e.0@);
            assert(options.map()[e.0@] == e.1);
            assert(views(pairs@) =~= before.push((e.0@, e.1@)));
            assert(option_entries(*options)[i as int] == (e.0@, e.1@));
            assert(option_entries(*options).take(i + 1) =~= option_entries(*options).take(i as int).push(
                (e.0@, e.1@),
            ));
        }
        i = i + 1;
    }
    proof {
        assert(option_entries(*options).take(entries@.len() as int) =~= option_entries(*options));
    }
    let lines = sorted(pairs);
    let ghost sorted_views = views(lines@);
    let mut out = String::new();
    let mut j: usize = 0;
    proof {
        assert(sorted_views.take(0) =~= Seq::<(Seq<char>, Seq<char>)>::empty());
        assert(out@ =~= Seq::<char>::empty());
    }
    while j < lines.len()
        invariant
            j <= lines@.len(),
            sorted_views == views(lines@),
            out@ == option_lines(sorted_views.take(j as int)),
        decreases lines@.len() - j,
    {
        let line = write_key(lines[j].0.as_str(), lines[j].1.as_str());
        string_push_str(&mut out, line.as_str());
        proof {
            assert(sorted_views.take(j + 1).drop_last() =~= sorted_views.take(j as int));
        }
        j = j + 1;
    }
    proof {
        assert(sorted_views.take(lines@.len() as int) =~= sorted_views);
    }
    out
}

} // verus!
