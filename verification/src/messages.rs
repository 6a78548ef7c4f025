//! Message types exchanged between the front end and the fetch pipeline.

use vstd::prelude::*;

verus! {

/// The character views of a sequence of strings.
pub open spec fn views_of(urls: Seq<String>) -> Seq<Seq<char>> {
    urls.map_values(|u: String| u@)
}

/// A batch of URLs submitted together for concurrent fetching.
///
/// A command is a set of URLs: duplicates collapse and order carries no
/// meaning. The `urls` vector is kept duplicate-free (see [`Command::wf`]),
/// so its length is the number of distinct URLs in the batch.
pub struct Command {
    pub urls: Vec<String>,
}

impl Command {
    /// The URLs hold no duplicates: each URL of the batch appears once.
    pub open spec fn wf(self) -> bool {
        forall|i: int, j: int|
            0 <= i < j < self.urls@.len() ==> self.urls@[i]@ != self.urls@[j]@
    }

    /// The batch as a set of URLs.
    pub open spec fn url_set(self) -> Set<Seq<char>> {
        views_of(self.urls@).to_set()
    }

    /// Builds a command from a list of URLs, collapsing duplicates.
    ///
    /// The resulting batch holds exactly the distinct URLs of the input,
    /// in first-occurrence order.
    pub fn new(urls: Vec<String>) -> (cmd: Command)
        ensures
            cmd.wf(),
            cmd.url_set() == views_of(urls@).to_set(),
            cmd.urls@.len() <= urls@.len(),
    {
        let mut distinct: Vec<String> = Vec::new();
        let mut k: usize = 0;
        while k < urls.len()
            invariant
                k <= urls@.len(),
                distinct@.len() <= k,
                forall|i: int, j: int|
                    0 <= i < j < distinct@.len() ==> distinct@[i]@ != distinct@[j]@,
                views_of(distinct@).to_set() == views_of(urls@.take(k as int)).to_set(),
            decreases urls@.len() - k,
        {
            let url = &urls[k];
            let already = contains_url(&distinct, url);
            let ghost seen = distinct@;
            proof {
                assert(views_of(urls@.take(k + 1)) =~= views_of(urls@.take(k as int)).push(
                    urls@[k as int]@,
                ));
                lemma_to_set_push(views_of(urls@.take(k as int)), urls@[k as int]@);
            }
            if !already {
                distinct.push(url.clone());
                proof {
                    assert(views_of(distinct@) =~= views_of(seen).push(url@));
                    lemma_to_set_push(views_of(seen), url@);
                }
            } else {
                proof {
                    lemma_view_in_set(seen, url@);
                    assert(views_of(seen).to_set().insert(url@) =~= views_of(seen).to_set());
                }
            }
            k = k + 1;
        }
        proof {
            assert(urls@.take(urls@.len() as int) =~= urls@);
        }
        Command { urls: distinct }
    }
}

/// Pushing an element onto a sequence adds exactly it to the sequence's set.
proof fn lemma_to_set_push(s: Seq<Seq<char>>, x: Seq<char>)
    ensures
        s.push(x).to_set() == s.to_set().insert(x),
{
    assert forall|y: Seq<char>| s.push(x).to_set().contains(y) implies s.to_set().insert(
        x,
    ).contains(y) by {
        let i = choose|i: int| 0 <= i < s.push(x).len() && s.push(x)[i] == y;
        if i < s.len() {
            assert(s.to_set().contains(y));
        }
    }
    assert forall|y: Seq<char>| s.to_set().insert(x).contains(y) implies s.push(
        x,
    ).to_set().contains(y) by {
        if s.to_set().contains(y) {
            let i = choose|i: int| 0 <= i < s.len() && s[i] == y;
            assert(s.push(x)[i] == y);
        } else {
            assert(s.push(x)[s.len() as int] == x);
        }
    }
    assert(s.push(x).to_set() =~= s.to_set().insert(x));
}

/// A view that occurs at some index of the vector is in the vector's set.
proof fn lemma_view_in_set(urls: Seq<String>, v: Seq<char>)
    requires
        exists|i: int| 0 <= i < urls.len() && urls[i]@ == v,
    ensures
        views_of(urls).to_set().contains(v),
{
    let i = choose|i: int| 0 <= i < urls.len() && urls[i]@ == v;
    assert(views_of(urls)[i] == v);
}

/// Whether some URL of `urls` has the same characters as `url`.
pub fn contains_url(urls: &Vec<String>, url: &String) -> (present: bool)
    ensures
        present == exists|i: int| 0 <= i < urls@.len() && urls@[i]@ == url@,
{
    let mut k: usize = 0;
    while k < urls.len()
        invariant
            k <= urls@.len(),
            forall|i: int| 0 <= i < k ==> urls@[i]@ != url@,
        decreases urls@.len() - k,
    {
        if urls[k].eq(url) {
            return true;
        }
        k = k + 1;
    }
    false
}

/// The outcome of one fetch, reported back to the front end.
///
/// `output` is a bounded, human-readable summary of what fetching `url`
/// produced; a failed fetch is reported through it as ordinary data, never
/// as an error of the pipeline.
pub struct CommandResult {
    pub url: String,
    pub output: String,
}

} // verus!
