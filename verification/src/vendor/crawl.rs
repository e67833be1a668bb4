//! The breadth-first crawl over the dependency closure.

use vstd::prelude::*;
use std::collections::VecDeque;
use vstd::string::StringExecFns;

use crate::text::{string_views, strings_contain};
use crate::vendor::index_js::{
    core_entries, core_entries_spec, entry_view, languages, languages_spec, LanguageEntry,
};

verus! {

/// The modules the crawl starts from: the core packages, then the language
/// packages.
pub open spec fn crawl_start() -> Seq<Seq<char>> {
    core_entries_spec() + languages_spec().map_values(|e: (Seq<char>, Seq<char>)| e.0)
}

/// The next module to vendor from `queue` given the modules already `done`,
/// and the queue after it: modules already done are skipped.
pub open spec fn next_spec(queue: Seq<Seq<char>>, done: Seq<Seq<char>>) -> (
    Option<Seq<char>>,
    Seq<Seq<char>>,
)
    decreases queue.len(),
{
    if queue.len() == 0 {
        (None, queue)
    } else if done.contains(queue[0]) {
        next_spec(queue.skip(1), done)
    } else {
        (Some(queue[0]), queue.skip(1))
    }
}

/// `queue` with the dependencies `deps` that are not yet `done` appended, in
/// order.
pub open spec fn enqueue_spec(queue: Seq<Seq<char>>, done: Seq<Seq<char>>, deps: Seq<Seq<char>>) -> Seq<
    Seq<char>,
>
    decreases deps.len(),
{
    if deps.len() == 0 {
        queue
    } else {
        let q = enqueue_spec(queue, done, deps.drop_last());
        if done.contains(deps.last()) {
            q
        } else {
            q.push(deps.last())
        }
    }
}

/// The state of the crawl: modules waiting to be vendored, and those already
/// vendored.
pub struct CrawlView {
    pub queue: Seq<Seq<char>>,
    pub done: Seq<Seq<char>>,
}

/// The breadth-first crawl over the dependency closure: a queue of modules
/// to vendor and the set of modules already handed out, so each module is
/// vendored once.
pub struct Crawl {
    queue: VecDeque<String>,
    done: Vec<String>,
}

impl View for Crawl {
    type V = CrawlView;

    closed spec fn view(&self) -> CrawlView {
        CrawlView {
            queue: self.queue@.map_values(|s: String| s@),
            done: string_views(self.done@),
        }
    }
}

impl Crawl {
    /// Well-formed: no module is recorded as done twice.
    pub open spec fn wf(&self) -> bool {
        self@.done.no_duplicates()
    }

    /// A crawl that starts from the core packages and the language packages,
    /// with nothing vendored yet.
    pub fn new() -> (crawl: Self)
        ensures
            crawl@.queue == crawl_start(),
            crawl@.done == Seq::<Seq<char>>::empty(),
            crawl.wf(),
    {
        let mut queue: VecDeque<String> = VecDeque::new();
        let entries = core_entries();
        let mut i: usize = 0;
        while i < entries.len()
            invariant
                i <= entries@.len(),
                entries@.map_values(|e: &'static str| e@) == core_entries_spec(),
                queue@.map_values(|s: String| s@) == core_entries_spec().take(i as int),
            decreases entries.len() - i,
        {
            assert(entries@.map_values(|e: &'static str| e@)[i as int] == entries@[i as int]@);
            let ghost before = queue@.map_values(|s: String| s@);
            queue.push_back(String::from_str(entries[i]));
            assert(queue@.map_values(|s: String| s@) =~= before.push(core_entries_spec()[i as int]));
            assert(queue@.map_values(|s: String| s@) =~= core_entries_spec().take(i + 1));
            i = i + 1;
        }
        let langs = languages();
        let ghost packages = languages_spec().map_values(|e: (Seq<char>, Seq<char>)| e.0);
        let mut i: usize = 0;
        assert(core_entries_spec().take(core_entries_spec().len() as int) =~= core_entries_spec());
        while i < langs.len()
            invariant
                i <= langs@.len(),
                langs@.map_values(|e: LanguageEntry| entry_view(e)) == languages_spec(),
                packages == languages_spec().map_values(|e: (Seq<char>, Seq<char>)| e.0),
                queue@.map_values(|s: String| s@) == core_entries_spec() + packages.take(i as int),
            decreases langs.len() - i,
        {
            assert(langs@.map_values(|e: LanguageEntry| entry_view(e))[i as int] == entry_view(langs@[i as int]));
            assert(packages[i as int] == languages_spec()[i as int].0);
            let ghost before = queue@.map_values(|s: String| s@);
            queue.push_back(String::from_str(langs[i].package));
            assert(queue@.map_values(|s: String| s@) =~= before.push(packages[i as int]));
            assert(queue@.map_values(|s: String| s@) =~= core_entries_spec() + packages.take(i + 1));
            i = i + 1;
        }
        assert(packages.take(packages.len() as int) =~= packages);
        let crawl = Crawl { queue, done: Vec::new() };
        assert(crawl@.done =~= Seq::<Seq<char>>::empty());
        crawl
    }

    /// Whether `module` was already handed out.
    fn is_done(&self, module: &String) -> (b: bool)
        ensures
            b == self@.done.contains(module@),
    {
        strings_contain(&self.done, module)
    }

    /// The next module to vendor, recorded as done; modules already done are
    /// skipped. `None` once the queue is exhausted.
    pub fn next_module(&mut self) -> (module: Option<String>)
        requires
            old(self).wf(),
        ensures
            final(self).wf(),
            ({
                let (next, queue) = next_spec(old(self)@.queue, old(self)@.done);
                &&& final(self)@.queue == queue
                &&& match module {
                    Some(m) => next == Some(m@) && final(self)@.done == old(self)@.done.push(m@),
                    None => next is None && final(self)@.done == old(self)@.done,
                }
            }),
    {
        loop
            invariant
                next_spec(self@.queue, self@.done) == next_spec(old(self)@.queue, old(self)@.done),
                self@.done == old(self)@.done,
                self@.done.no_duplicates(),
            decreases self@.queue.len(),
        {
            let ghost q = self@.queue;
            match self.queue.pop_front() {
                None => {
                    return None;
                },
                Some(module) => {
                    assert(self@.queue =~= q.skip(1));
                    if !self.is_done(&module) {
                        let ghost done = self@.done;
                        self.done.push(module.clone());
                        assert(self@.done =~= done.push(module@));
                        return Some(module);
                    }
                },
            }
        }
    }

    /// Enqueues the dependencies `deps` of a vendored module, skipping those
    /// already done.
    pub fn deps_enqueue(&mut self, deps: Vec<String>)
        requires
            old(self).wf(),
        ensures
            final(self).wf(),
            final(self)@.queue == enqueue_spec(old(self)@.queue, old(self)@.done, string_views(deps@)),
            final(self)@.done == old(self)@.done,
    {
        let mut i: usize = 0;
        assert(string_views(deps@).take(0) =~= Seq::<Seq<char>>::empty());
        while i < deps.len()
            invariant
                i <= deps@.len(),
                self@.done == old(self)@.done,
                self@.queue == enqueue_spec(
                    old(self)@.queue,
                    old(self)@.done,
                    string_views(deps@).take(i as int),
                ),
            decreases deps.len() - i,
        {
            let dep = &deps[i];
            assert(string_views(deps@).take(i + 1).drop_last() =~= string_views(deps@).take(i as int));
            assert(string_views(deps@).take(i + 1).last() == dep@);
            if !self.is_done(dep) {
                let ghost q = self@.queue;
                self.queue.push_back(dep.clone());
                assert(self@.queue =~= q.push(dep@));
            }
            i = i + 1;
        }
        assert(string_views(deps@).take(deps@.len() as int) =~= string_views(deps@));
    }

    /// How many modules were handed out.
    pub fn done_count(&self) -> (n: usize)
        ensures
            n == self@.done.len(),
    {
        self.done.len()
    }
}

/// The crawl hands out only modules from its queue that were not vendored
/// before, so no module is vendored twice.
pub proof fn lemma_next_not_done(queue: Seq<Seq<char>>, done: Seq<Seq<char>>)
    ensures
        next_spec(queue, done).0 matches Some(m) ==> !done.contains(m) && queue.contains(m),
    decreases queue.len(),
{
    if queue.len() > 0 && done.contains(queue[0]) {
        lemma_next_not_done(queue.skip(1), done);
        if let Some(m) = next_spec(queue.skip(1), done).0 {
            let k = choose|k: int| 0 <= k < queue.skip(1).len() && queue.skip(1)[k] == m;
            assert(queue[k + 1] == m);
        }
    } else if queue.len() > 0 {
        assert(queue[0] == queue[0]);
    }
}

/// Whether `m` is reached from the crawl's start within `n` import steps,
/// where each module `p` imports the modules `deps(p)`.
pub open spec fn reachable_in(deps: spec_fn(Seq<char>) -> Seq<Seq<char>>, n: nat, m: Seq<char>) -> bool
    decreases n,
{
    if n == 0 {
        crawl_start().contains(m)
    } else {
        reachable_in(deps, (n - 1) as nat, m) || exists|p: Seq<char>|
            reachable_in(deps, (n - 1) as nat, p) && #[trigger] deps(p).contains(m)
    }
}

/// Whether `m` is in the dependency closure of the crawl's start, where each
/// module `p` imports the modules `deps(p)`.
pub open spec fn reachable(deps: spec_fn(Seq<char>) -> Seq<Seq<char>>, m: Seq<char>) -> bool {
    exists|n: nat| reachable_in(deps, n, m)
}

/// What holds of the crawl between steps, when each vendored module `p`
/// enqueues `deps(p)`: nothing is done twice; everything done or queued is in
/// the closure; every start module is done or queued; and every import of a
/// done module is done or queued.
pub open spec fn crawl_inv(
    deps: spec_fn(Seq<char>) -> Seq<Seq<char>>,
    queue: Seq<Seq<char>>,
    done: Seq<Seq<char>>,
) -> bool {
    &&& done.no_duplicates()
    &&& forall|m: Seq<char>|
        #![trigger done.contains(m)]
        #![trigger queue.contains(m)]
        done.contains(m) || queue.contains(m) ==> reachable(deps, m)
    &&& forall|m: Seq<char>| #[trigger]
        crawl_start().contains(m) ==> done.contains(m) || queue.contains(m)
    &&& forall|x: Seq<char>, y: Seq<char>|
        #![trigger done.contains(x), deps(x).contains(y)]
        done.contains(x) && deps(x).contains(y) ==> done.contains(y) || queue.contains(y)
}

/// What taking the next module does to the queue: each queued module is done
/// already, handed out, or still queued; nothing new is queued; and an
/// exhausted queue is empty.
pub proof fn lemma_next_spec_parts(queue: Seq<Seq<char>>, done: Seq<Seq<char>>)
    ensures
        forall|x: Seq<char>|
            #[trigger] queue.contains(x) ==> done.contains(x) || next_spec(queue, done).0 == Some(x)
                || next_spec(queue, done).1.contains(x),
        forall|x: Seq<char>| #[trigger] next_spec(queue, done).1.contains(x) ==> queue.contains(x),
        next_spec(queue, done).0 is None ==> next_spec(queue, done).1.len() == 0,
    decreases queue.len(),
{
    if queue.len() > 0 {
        let tail = queue.skip(1);
        lemma_next_spec_parts(tail, done);
        assert forall|x: Seq<char>| #[trigger] queue.contains(x) implies done.contains(x)
            || next_spec(queue, done).0 == Some(x) || next_spec(queue, done).1.contains(x) by {
            let k = choose|k: int| 0 <= k < queue.len() && queue[k] == x;
            if k > 0 {
                assert(tail[k - 1] == x);
                assert(tail.contains(x));
            }
        }
        assert forall|x: Seq<char>| #[trigger] next_spec(queue, done).1.contains(x) implies queue.contains(
            x,
        ) by {
            if !done.contains(queue[0]) {
                assert(next_spec(queue, done).1 == tail);
            }
            assert(tail.contains(x));
            let k = choose|k: int| 0 <= k < tail.len() && tail[k] == x;
            assert(queue[k + 1] == x);
        }
    }
}

/// A queue after enqueueing holds the modules it held, and the dependencies
/// that were not done.
pub proof fn lemma_enqueue_contains(
    queue: Seq<Seq<char>>,
    done: Seq<Seq<char>>,
    deps: Seq<Seq<char>>,
)
    ensures
        forall|x: Seq<char>|
            #[trigger] enqueue_spec(queue, done, deps).contains(x) <==> queue.contains(x) || (
            deps.contains(x) && !done.contains(x)),
    decreases deps.len(),
{
    if deps.len() > 0 {
        let init = deps.drop_last();
        lemma_enqueue_contains(queue, done, init);
        let q = enqueue_spec(queue, done, init);
        assert forall|x: Seq<char>| #[trigger] enqueue_spec(queue, done, deps).contains(x) <==> queue.contains(
            x,
        ) || (deps.contains(x) && !done.contains(x)) by {
            if deps.contains(x) && x != deps.last() {
                let k = choose|k: int| 0 <= k < deps.len() && deps[k] == x;
                assert(init[k] == x);
            }
            if init.contains(x) {
                let k = choose|k: int| 0 <= k < init.len() && init[k] == x;
                assert(deps[k] == x);
            }
            if !done.contains(deps.last()) {
                if q.push(deps.last()).contains(x) && x != deps.last() {
                    let k = choose|k: int| 0 <= k < q.len() + 1 && q.push(deps.last())[k] == x;
                    assert(q[k] == x);
                }
                if q.contains(x) {
                    let k = choose|k: int| 0 <= k < q.len() && q[k] == x;
                    assert(q.push(deps.last())[k] == x);
                }
                assert(q.push(deps.last())[q.len() as int] == deps.last());
            }
            assert(deps[deps.len() - 1] == deps.last());
        }
    }
}

/// The crawl starts in a state of its invariant.
pub proof fn lemma_crawl_start(deps: spec_fn(Seq<char>) -> Seq<Seq<char>>)
    ensures
        crawl_inv(deps, crawl_start(), Seq::empty()),
{
    assert forall|m: Seq<char>| #[trigger] crawl_start().contains(m) implies reachable(deps, m) by {
        assert(reachable_in(deps, 0, m));
    }
}

/// Handing out the next module and enqueueing its imports keeps the crawl's
/// invariant.
pub proof fn lemma_crawl_step(
    deps: spec_fn(Seq<char>) -> Seq<Seq<char>>,
    queue: Seq<Seq<char>>,
    done: Seq<Seq<char>>,
)
    requires
        crawl_inv(deps, queue, done),
        next_spec(queue, done).0 is Some,
    ensures
        ({
            let m = next_spec(queue, done).0->0;
            let done2 = done.push(m);
            crawl_inv(deps, enqueue_spec(next_spec(queue, done).1, done2, deps(m)), done2)
        }),
{
    let m = next_spec(queue, done).0->0;
    let rest = next_spec(queue, done).1;
    let done2 = done.push(m);
    let queue2 = enqueue_spec(rest, done2, deps(m));
    lemma_next_not_done(queue, done);
    lemma_next_spec_parts(queue, done);
    lemma_enqueue_contains(rest, done2, deps(m));
    assert(done2[done.len() as int] == m);
    assert(done2.contains(m));
    assert forall|x: Seq<char>| #[trigger] done2.contains(x) <==> done.contains(x) || x == m by {
        if done2.contains(x) && x != m {
            let k = choose|k: int| 0 <= k < done2.len() && done2[k] == x;
            assert(done[k] == x);
        }
        if done.contains(x) {
            let k = choose|k: int| 0 <= k < done.len() && done[k] == x;
            assert(done2[k] == x);
        }
    }
    assert(reachable(deps, m));
    let n = choose|n: nat| reachable_in(deps, n, m);
    assert forall|y: Seq<char>| #[trigger] deps(m).contains(y) implies reachable(deps, y) by {
        assert(reachable_in(deps, n + 1, y));
    }
    assert forall|x: Seq<char>, y: Seq<char>| done2.contains(x) && #[trigger] deps(x).contains(y) implies done2.contains(
        y,
    ) || queue2.contains(y) by {
        if x != m {
            assert(done.contains(x));
            assert(done.contains(y) || queue.contains(y));
        }
    }
    assert forall|x: Seq<char>| done2.contains(x) || queue2.contains(x) implies #[trigger] reachable(
        deps,
        x,
    ) by {
        if queue2.contains(x) && !rest.contains(x) {
            assert(deps(m).contains(x));
        }
        if rest.contains(x) {
            assert(queue.contains(x));
        }
    }
    assert forall|x: Seq<char>| #[trigger] crawl_start().contains(x) implies done2.contains(x)
        || queue2.contains(x) by {
        if queue.contains(x) {
            assert(done.contains(x) || x == m || rest.contains(x));
        }
    }
}

/// Once the crawl's invariant holds and the queue has nothing left to hand
/// out, the modules done are exactly the dependency closure of the start, each
/// once: the crawl vendors the core and language packages and everything they
/// import, transitively, and nothing else.
pub proof fn lemma_crawl_complete(
    deps: spec_fn(Seq<char>) -> Seq<Seq<char>>,
    queue: Seq<Seq<char>>,
    done: Seq<Seq<char>>,
)
    requires
        crawl_inv(deps, queue, done),
        next_spec(queue, done).0 is None,
    ensures
        forall|m: Seq<char>| #[trigger] done.contains(m) <==> reachable(deps, m),
        done.no_duplicates(),
{
    lemma_next_spec_parts(queue, done);
    assert forall|m: Seq<char>| #[trigger] reachable(deps, m) implies done.contains(m) by {
        let n = choose|n: nat| reachable_in(deps, n, m);
        lemma_reachable_done(deps, queue, done, n, m);
    }
}

/// Within the invariant, with every queued module already done, each module
/// reached in `n` steps is done.
proof fn lemma_reachable_done(
    deps: spec_fn(Seq<char>) -> Seq<Seq<char>>,
    queue: Seq<Seq<char>>,
    done: Seq<Seq<char>>,
    n: nat,
    m: Seq<char>,
)
    requires
        crawl_inv(deps, queue, done),
        forall|x: Seq<char>| #[trigger] queue.contains(x) ==> done.contains(x),
        reachable_in(deps, n, m),
    ensures
        done.contains(m),
    decreases n,
{
    if n > 0 {
        if reachable_in(deps, (n - 1) as nat, m) {
            lemma_reachable_done(deps, queue, done, (n - 1) as nat, m);
        } else {
            let p = choose|p: Seq<char>| reachable_in(deps, (n - 1) as nat, p) && #[trigger] deps(p).contains(m);
            lemma_reachable_done(deps, queue, done, (n - 1) as nat, p);
            assert(done.contains(p) && deps(p).contains(m));
        }
    } else {
        assert(crawl_start().contains(m));
    }
}

} // verus!
