use vstd::prelude::*;
use crate::text::{split, split_spec, views, lemma_split_nonempty};

verus! {

broadcast use vstd::string::group_string_axioms;

/// The drink names asked for by the `name=` pairs of a list of `key=value` pairs, in order.
/// A pair counts only when it holds exactly one `=`.
pub open spec fn names_in_pairs(pairs: Seq<Seq<char>>) -> Seq<Seq<char>>
    decreases pairs.len(),
{
    if pairs.len() == 0 {
        Seq::empty()
    } else {
        let prev = names_in_pairs(pairs.drop_last());
        let kv = split_spec(pairs.last(), '=');
        if kv.len() == 2 && kv[0] == "name"@ {
            prev.push(kv[1])
        } else {
            prev
        }
    }
}

/// The drinks a request URI asks for: `None` when it has no query (all drinks are meant),
/// else the names of the `name=` pairs of the query that follows the first `?`.
pub open spec fn requested_names(uri: Seq<char>) -> Option<Seq<Seq<char>>> {
    let parts = split_spec(uri, '?');
    if parts.len() > 1 {
        Some(names_in_pairs(split_spec(parts[1], '&')))
    } else {
        None
    }
}

/// The drinks that a `GET` of the drinks endpoint asks for.
pub fn requested_drink_names(uri: &str) -> (r: Option<Vec<String>>)
    ensures
        match r {
            None => requested_names(uri@) is None,
            Some(names) => requested_names(uri@) == Some(views(names@)),
        },
{
    let parts = split(uri, '?');
    if parts.len() > 1 {
        let pairs = split(parts[1].as_str(), '&');
        proof {
            assert(views(parts@)[1] == parts@[1]@);
        }
        let key = "name".to_string();
        let mut names: Vec<String> = Vec::new();
        let mut i: usize = 0;
        while i < pairs.len()
            invariant
                0 <= i <= pairs@.len(),
                key@ == "name"@,
                views(pairs@) == split_spec(parts@[1]@, '&'),
                views(names@) == names_in_pairs(views(pairs@).take(i as int)),
            decreases pairs@.len() - i,
        {
            let kv = split(pairs[i].as_str(), '=');
            let ghost prev = names@;
            proof {
                assert(views(pairs@).take(i as int + 1).drop_last() =~= views(pairs@).take(i as int));
                assert(views(pairs@).take(i as int + 1).last() == pairs@[i as int]@);
                lemma_split_nonempty(pairs@[i as int]@, '=');
            }
            if kv.len() == 2 && kv[0] == key {
                names.push(kv[1].clone());
                proof {
                    assert(views(kv@)[0] == kv@[0]@);
                    assert(views(kv@)[1] == kv@[1]@);
                    assert(views(names@) =~= views(prev).push(kv@[1]@));
                }
            } else {
                proof {
                    assert(views(kv@)[0] == kv@[0]@);
                }
            }
            i = i + 1;
        }
        proof {
            assert(views(pairs@).take(pairs@.len() as int) =~= views(pairs@));
        }
        Some(names)
    } else {
        None
    }
}

} // verus!
