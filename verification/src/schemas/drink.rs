use vstd::prelude::*;
use std::collections::BTreeMap;
use vstd::std_specs::iter::IteratorSpec;
use vstd::std_specs::btree::increasing_seq;
use vstd::std_specs::cmp::OrdSpec;
use crate::text::{split, split_spec, views, parse_u32, parsed_u32, lemma_split_nonempty};

verus! {

broadcast use vstd::string::group_string_axioms, vstd::std_specs::btree::group_btree_axioms;

/// The saved drinks: file number to drink name.
pub type Menu = BTreeMap<u32, String>;

/// Extension of drink files (8.3 file names).
pub const DRINKS_FILE_EXTENSION: &'static str = "JSN";

/// Why a file name in the drinks directory is not a drink file.
#[derive(Debug, Clone, Copy, PartialEq, Eq, Structural)]
pub enum FileNameError {
    /// The part before the first `.` is not a number.
    InvalidNumber,
    /// A part after the first `.` is not the drinks extension.
    InvalidExtension,
}

/// The number a drink file name stands for: the name is split at every `.`; the first part
/// must be a number and every later part the drinks extension.
pub open spec fn file_number(name: Seq<char>) -> Result<u32, FileNameError> {
    let parts = split_spec(name, '.');
    match parsed_u32(parts[0]) {
        None => Err(FileNameError::InvalidNumber),
        Some(n) => if forall|i: int| 1 <= i < parts.len() ==> #[trigger] parts[i] == "JSN"@ {
            Ok(n)
        } else {
            Err(FileNameError::InvalidExtension)
        },
    }
}

/// The number of a drink file, from its name.
pub fn parse_file_name(name: &str) -> (r: Result<u32, FileNameError>)
    ensures
        r == file_number(name@),
{
    let parts = split(name, '.');
    proof {
        lemma_split_nonempty(name@, '.');
        assert(views(parts@)[0] == parts@[0]@);
    }
    let number = match parse_u32(parts[0].as_str()) {
        None => return Err(FileNameError::InvalidNumber),
        Some(n) => n,
    };
    let extension = DRINKS_FILE_EXTENSION.to_string();
    let mut i: usize = 1;
    while i < parts.len()
        invariant
            1 <= i <= parts@.len(),
            views(parts@) == split_spec(name@, '.'),
            extension@ == "JSN"@,
            parsed_u32(views(parts@)[0]) == Some(number),
            forall|j: int| 1 <= j < i ==> #[trigger] views(parts@)[j] == "JSN"@,
        decreases parts@.len() - i,
    {
        if !(parts[i] == extension) {
            proof {
                assert(views(parts@)[i as int] == parts@[i as int]@);
                assert(views(parts@)[i as int] != "JSN"@);
            }
            return Err(FileNameError::InvalidExtension);
        }
        proof {
            assert(views(parts@)[i as int] == parts@[i as int]@);
        }
        i = i + 1;
    }
    Ok(number)
}

/// Whether every number below `n` is a file number in the menu.
pub open spec fn all_taken_below(menu: Map<u32, String>, n: int) -> bool {
    forall|j: u32| j < n ==> #[trigger] menu.contains_key(j)
}

/// The numbers below `k`, as a set of `u32`.
pub open spec fn numbers_below(k: int) -> Set<u32> {
    Set::new(|x: u32| x < k)
}

proof fn lemma_numbers_below_len(k: nat)
    requires
        k <= u32::MAX + 1,
    ensures
        numbers_below(k as int).finite(),
        numbers_below(k as int).len() == k,
    decreases k,
{
    if k == 0 {
        assert(numbers_below(0) =~= Set::<u32>::empty());
    } else {
        lemma_numbers_below_len((k - 1) as nat);
        let prev = numbers_below(k - 1);
        let last = (k - 1) as u32;
        assert(numbers_below(k as int) =~= prev.insert(last));
    }
}

/// The lowest file number that the menu does not use, the one a new drink is saved under.
pub fn next_file_number(menu: &Menu) -> (r: u32)
    requires
        menu@.len() < u32::MAX,
    ensures
        !menu@.contains_key(r),
        all_taken_below(menu@, r as int),
{
    let n = menu.len() as u32;
    let mut i: u32 = 0;
    while i <= n
        invariant
            n == menu@.len(),
            n < u32::MAX,
            i <= n + 1,
            all_taken_below(menu@, i as int),
        decreases n + 1 - i,
    {
        if !menu.contains_key(&i) {
            return i;
        }
        i = i + 1;
    }
    proof {
        lemma_numbers_below_len(n as nat + 1);
        assert(numbers_below(n as int + 1).subset_of(menu@.dom()));
        vstd::set_lib::lemma_len_subset(numbers_below(n as int + 1), menu@.dom());
    }
    0
}

/// Whether `name` is the name of no drink with a number below `k` (all of them when `k` is
/// `None`).
pub open spec fn unnamed_below(menu: Map<u32, String>, name: Seq<char>, k: Option<u32>) -> bool {
    forall|j: u32|
        #[trigger] menu.contains_key(j) && (k matches Some(b) ==> j < b) ==> menu[j]@ != name
}

/// The number of the drink called `name`: the lowest number with that name, or `None` when
/// no drink has it.
pub fn find_drink_number(name: &str, menu: &Menu) -> (r: Option<u32>)
    ensures
        match r {
            Some(k) => menu@.contains_key(k) && menu@[k]@ == name@ && unnamed_below(
                menu@,
                name@,
                Some(k),
            ),
            None => unnamed_below(menu@, name@, None),
        },
{
    let target = name.to_string();
    let entries_iter = menu.iter();
    let ghost entries0 = entries_iter.remaining();
    let ghost keys0 = entries0.map_values(|kv: (&u32, &String)| *kv.0);
    proof {
        assert(increasing_seq(keys0));
        assert(entries0 == vstd::std_specs::btree::spec_btree_map_iter(menu).remaining());
    }
    for (number, drink_name) in it: entries_iter
        invariant
            target@ == name@,
            increasing_seq(keys0),
            it.seq() == entries0,
            keys0 == entries0.map_values(|kv: (&u32, &String)| *kv.0),
            entries0 == vstd::std_specs::btree::spec_btree_map_iter(menu).remaining(),
            forall|i: int| 0 <= i < it.index() ==> (#[trigger] it.seq()[i]).1@ != name@,
    {
        if *drink_name == target {
            proof {
                let entries = it.seq();
                let idx = it.index();
                let keys = entries.map_values(|kv: (&u32, &String)| *kv.0);
                assert(increasing_seq(keys));
                assert forall|j: u32| #[trigger]
                    menu@.contains_key(j) && j < *number implies menu@[j]@ != name@ by {
                    assert(entries.contains((&j, &menu@[j])));
                    let p = choose|p: int| 0 <= p < entries.len() && entries[p] == (&j, &menu@[j]);
                    if p > idx {
                        assert(keys[idx] == *number);
                        assert(keys[p] == j);
                        assert(keys[idx].cmp_spec(&keys[p]) is Less);
                    }
                }
            }
            return Some(*number);
        }
    }
    None
}

} // verus!
