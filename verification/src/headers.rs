use vstd::prelude::*;

verus! {

/// A header as text: its name and its value.
pub type HeaderModel = (Seq<char>, Seq<char>);

/// The text of a list of headers.
pub open spec fn headers_view(headers: Seq<(String, String)>) -> Seq<HeaderModel> {
    headers.map_values(|h: (String, String)| (h.0@, h.1@))
}

/// No two headers of the list share a name.
pub open spec fn names_distinct(headers: Seq<HeaderModel>) -> bool {
    forall|i: int, j: int|
        0 <= i < headers.len() && 0 <= j < headers.len() && i != j ==> #[trigger] headers[i].0
            != #[trigger] headers[j].0
}

/// Whether the list holds a header of that name.
pub open spec fn has_name(headers: Seq<HeaderModel>, name: Seq<char>) -> bool {
    exists|j: int| 0 <= j < headers.len() && #[trigger] headers[j].0 == name
}

/// Adds one header to a list of distinct names as a map does: a header of the
/// same name takes the new value in its place, a new name goes to the end.
pub open spec fn insert_header(headers: Seq<HeaderModel>, name: Seq<char>, value: Seq<char>) -> Seq<
    HeaderModel,
> {
    if has_name(headers, name) {
        let j = choose|j: int| 0 <= j < headers.len() && #[trigger] headers[j].0 == name;
        headers.update(j, (name, value))
    } else {
        headers.push((name, value))
    }
}

/// The headers that collecting a list into a map keeps: one per name, with
/// the value that the last header of that name carries, in the order in which
/// the names first appear.
pub open spec fn collected(headers: Seq<HeaderModel>) -> Seq<HeaderModel>
    decreases headers.len(),
{
    if headers.len() == 0 {
        Seq::empty()
    } else {
        let last = headers.last();
        insert_header(collected(headers.drop_last()), last.0, last.1)
    }
}

/// The map from names to values that a list of headers describes: for each
/// name, the value of its last header.
pub open spec fn header_map(headers: Seq<HeaderModel>) -> Map<Seq<char>, Seq<char>>
    decreases headers.len(),
{
    if headers.len() == 0 {
        Map::empty()
    } else {
        let last = headers.last();
        header_map(headers.drop_last()).insert(last.0, last.1)
    }
}

proof fn lemma_insert_keeps_distinct(headers: Seq<HeaderModel>, name: Seq<char>, value: Seq<char>)
    requires
        names_distinct(headers),
    ensures
        names_distinct(insert_header(headers, name, value)),
        has_name(insert_header(headers, name, value), name),
        forall|n: Seq<char>|
            has_name(headers, n) ==> has_name(#[trigger] insert_header(headers, name, value), n),
{
    let r = insert_header(headers, name, value);
    if has_name(headers, name) {
        let j = choose|j: int| 0 <= j < headers.len() && #[trigger] headers[j].0 == name;
        assert(r[j].0 == name);
        assert forall|n: Seq<char>| has_name(headers, n) implies has_name(r, n) by {
            let k = choose|k: int| 0 <= k < headers.len() && #[trigger] headers[k].0 == n;
            assert(r[k].0 == n);
        }
    } else {
        assert(r[headers.len() as int].0 == name);
        assert forall|n: Seq<char>| has_name(headers, n) implies has_name(r, n) by {
            let k = choose|k: int| 0 <= k < headers.len() && #[trigger] headers[k].0 == n;
            assert(r[k].0 == n);
        }
    }
}

/// Collecting headers leaves no two of the same name.
pub proof fn lemma_collected_distinct(headers: Seq<HeaderModel>)
    ensures
        names_distinct(collected(headers)),
    decreases headers.len(),
{
    if headers.len() > 0 {
        lemma_collected_distinct(headers.drop_last());
        lemma_insert_keeps_distinct(
            collected(headers.drop_last()),
            headers.last().0,
            headers.last().1,
        );
    }
}

proof fn lemma_map_of_update(headers: Seq<HeaderModel>, j: int, value: Seq<char>)
    requires
        names_distinct(headers),
        0 <= j < headers.len(),
    ensures
        header_map(headers.update(j, (headers[j].0, value))) == header_map(headers).insert(
            headers[j].0,
            value,
        ),
    decreases headers.len(),
{
    let name = headers[j].0;
    let updated = headers.update(j, (name, value));
    if j == headers.len() - 1 {
        assert(updated.drop_last() =~= headers.drop_last());
        assert(header_map(updated) =~= header_map(headers).insert(name, value));
    } else {
        let init = headers.drop_last();
        assert(names_distinct(init));
        lemma_map_of_update(init, j, value);
        assert(updated.drop_last() =~= init.update(j, (name, value)));
        assert(headers.last().0 != name);
        assert(header_map(updated) =~= header_map(headers).insert(name, value));
    }
}

proof fn lemma_map_of_insert(headers: Seq<HeaderModel>, name: Seq<char>, value: Seq<char>)
    requires
        names_distinct(headers),
    ensures
        header_map(insert_header(headers, name, value)) == header_map(headers).insert(name, value),
{
    if has_name(headers, name) {
        let j = choose|j: int| 0 <= j < headers.len() && #[trigger] headers[j].0 == name;
        lemma_map_of_update(headers, j, value);
    } else {
        assert(headers.push((name, value)).drop_last() =~= headers);
    }
}

/// Collecting headers keeps the map that they describe.
pub proof fn lemma_collected_map(headers: Seq<HeaderModel>)
    ensures
        header_map(collected(headers)) == header_map(headers),
    decreases headers.len(),
{
    if headers.len() > 0 {
        lemma_collected_map(headers.drop_last());
        lemma_collected_distinct(headers.drop_last());
        lemma_map_of_insert(collected(headers.drop_last()), headers.last().0, headers.last().1);
    }
}

proof fn lemma_collected_of_distinct(headers: Seq<HeaderModel>)
    requires
        names_distinct(headers),
    ensures
        collected(headers) == headers,
    decreases headers.len(),
{
    if headers.len() > 0 {
        let init = headers.drop_last();
        assert(names_distinct(init));
        lemma_collected_of_distinct(init);
        let last = headers.last();
        if has_name(init, last.0) {
            let j = choose|j: int| 0 <= j < init.len() && #[trigger] init[j].0 == last.0;
            assert(headers[j].0 == headers[headers.len() - 1].0);
        }
        assert(init.push(last) =~= headers);
    }
}

/// Collecting headers leaves none exactly when there were none.
pub proof fn lemma_collected_empty(headers: Seq<HeaderModel>)
    ensures
        (collected(headers).len() == 0) == (headers.len() == 0),
    decreases headers.len(),
{
    if headers.len() > 0 {
        let acc = collected(headers.drop_last());
        if has_name(acc, headers.last().0) {
            let j = choose|j: int| 0 <= j < acc.len() && #[trigger] acc[j].0 == headers.last().0;
            assert(acc.len() > 0);
        }
    }
}

/// Collecting headers a second time changes nothing.
pub proof fn lemma_collected_idempotent(headers: Seq<HeaderModel>)
    ensures
        collected(collected(headers)) == collected(headers),
{
    lemma_collected_distinct(headers);
    lemma_collected_of_distinct(collected(headers));
}

fn position_of(headers: &Vec<(String, String)>, name: &String) -> (r: Option<usize>)
    ensures
        match r {
            Some(j) => j < headers.len() && headers@[j as int].0@ == name@,
            None => !has_name(headers_view(headers@), name@),
        },
{
    let mut j: usize = 0;
    while j < headers.len()
        invariant
            j <= headers.len(),
            forall|k: int| 0 <= k < j ==> headers@[k].0@ != name@,
        decreases headers.len() - j,
    {
        if headers[j].0 == *name {
            return Some(j);
        }
        j = j + 1;
    }
    proof {
        let v = headers_view(headers@);
        assert forall|k: int| 0 <= k < v.len() implies #[trigger] v[k].0 != name@ by {
            assert(v[k].0 == headers@[k].0@);
        }
    }
    None
}

/// Collects headers into one per name, the last value of each name winning,
/// as gathering them into a map does.
pub fn collect_headers(headers: &Vec<(String, String)>) -> (r: Vec<(String, String)>)
    ensures
        headers_view(r@) == collected(headers_view(headers@)),
{
    let mut out: Vec<(String, String)> = Vec::new();
    let mut i: usize = 0;
    while i < headers.len()
        invariant
            i <= headers.len(),
            headers_view(out@) == collected(headers_view(headers@.take(i as int))),
        decreases headers.len() - i,
    {
        let ghost before = headers_view(out@);
        let ghost given = headers_view(headers@);
        proof {
            lemma_collected_distinct(headers_view(headers@.take(i as int)));
            assert(headers_view(headers@.take(i + 1)).drop_last() =~= headers_view(
                headers@.take(i as int),
            ));
            assert(headers_view(headers@.take(i + 1)).last() == given[i as int]);
        }
        let name = headers[i].0.clone();
        let value = headers[i].1.clone();
        match position_of(&out, &name) {
            Some(j) => {
                proof {
                    assert(before[j as int].0 == name@);
                    let c = choose|c: int| 0 <= c < before.len() && #[trigger] before[c].0 == name@;
                    assert(c == j);
                }
                out.set(j, (name, value));
                proof {
                    assert(headers_view(out@) =~= before.update(j as int, (name@, value@)));
                }
            },
            None => {
                out.push((name, value));
                proof {
                    assert(headers_view(out@) =~= before.push((name@, value@)));
                }
            },
        }
        i = i + 1;
    }
    proof {
        assert(headers@.take(headers.len() as int) =~= headers@);
    }
    out
}

/// The map that a list of headers describes holds exactly the names of the
/// list, and gives each name the value of its last header.
pub proof fn lemma_header_map_last_wins(headers: Seq<HeaderModel>, i: int)
    requires
        0 <= i < headers.len(),
        forall|j: int| i < j < headers.len() ==> #[trigger] headers[j].0 != headers[i].0,
    ensures
        header_map(headers).dom().contains(headers[i].0),
        header_map(headers)[headers[i].0] == headers[i].1,
    decreases headers.len(),
{
    if i < headers.len() - 1 {
        let init = headers.drop_last();
        assert forall|j: int| i < j < init.len() implies #[trigger] init[j].0 != init[i].0 by {
            assert(init[j] == headers[j]);
        }
        lemma_header_map_last_wins(init, i);
        assert(headers.last().0 != headers[i].0);
    }
}

/// Every name in the map that a list of headers describes is the name of
/// one of its headers.
pub proof fn lemma_header_map_names(headers: Seq<HeaderModel>, name: Seq<char>)
    ensures
        header_map(headers).dom().contains(name) <==> has_name(headers, name),
    decreases headers.len(),
{
    if headers.len() > 0 {
        let init = headers.drop_last();
        lemma_header_map_names(init, name);
        if has_name(headers, name) && headers.last().0 != name {
            let j = choose|j: int| 0 <= j < headers.len() && #[trigger] headers[j].0 == name;
            assert(init[j].0 == name);
        }
        if has_name(init, name) {
            let j = choose|j: int| 0 <= j < init.len() && #[trigger] init[j].0 == name;
            assert(headers[j].0 == name);
        }
        if headers.last().0 == name {
            assert(headers[headers.len() - 1].0 == name);
        }
    }
}

} // verus!
