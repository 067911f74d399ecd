//! Which functions of a module a program can reach from its entry point.

use std::collections::VecDeque;

use vstd::hash_map::StringHashMap;
use vstd::prelude::*;

use crate::ast::{FnDef, Item, Module, Stmt};
use crate::calls;
use crate::names::NameSet;
use crate::text;

verus! {

/// The name at which a compiled program starts.
pub open spec fn entry_text() -> Seq<char> {
    "main"@
}

/// The mark in front of the name under which a method body is kept.
pub open spec fn method_tag() -> Seq<char> {
    "__impl_method__"@
}

/// Whether a body kept under `name` counts as a method.
pub open spec fn is_method(name: Seq<char>) -> bool {
    text::has_text(name, method_tag())
}

/// `bodies` with the first `n` methods entered under their tagged names.
pub open spec fn with_methods(
    bodies: Map<Seq<char>, Seq<Stmt>>,
    methods: Seq<FnDef>,
    n: nat,
) -> Map<Seq<char>, Seq<Stmt>>
    decreases n,
{
    if n == 0 || n > methods.len() {
        bodies
    } else {
        with_methods(bodies, methods, (n - 1) as nat).insert(
            method_tag() + methods[n - 1].name@,
            methods[n - 1].body@,
        )
    }
}

/// The bodies of the functions and methods among the first `n` items, modules included. Of two
/// bodies with one name the later one counts.
pub open spec fn fn_bodies(items: Seq<Item>, n: nat) -> Map<Seq<char>, Seq<Stmt>>
    decreases items, n,
{
    if n == 0 || n > items.len() {
        Map::empty()
    } else {
        let before = fn_bodies(items, (n - 1) as nat);
        match items[n - 1] {
            Item::FnDef(f) => before.insert(f.name@, f.body@),
            Item::ImplBlock(block) => with_methods(before, block.methods@, block.methods@.len()),
            Item::ModDecl { inline: Some(inner), .. } => before.union_prefer_right(
                fn_bodies(inner@, inner@.len()),
            ),
            _ => before,
        }
    }
}

/// The bodies of all functions and methods of `module`.
pub open spec fn module_bodies(module: Module) -> Map<Seq<char>, Seq<Stmt>> {
    fn_bodies(module.items@, module.items@.len())
}

/// Whether a program with these bodies may start at `name`: it is the entry point or a method. Which
/// method a call site reaches depends on the type of its receiver, so every method may be called.
pub open spec fn is_root(bodies: Map<Seq<char>, Seq<Stmt>>, name: Seq<char>) -> bool {
    bodies.contains_key(name) && (name == entry_text() || is_method(name))
}

/// Whether the body of `a` calls `b`.
pub open spec fn walks_to(bodies: Map<Seq<char>, Seq<Stmt>>, a: Seq<char>, b: Seq<char>) -> bool {
    bodies.contains_key(a) && calls::body_calls(bodies[a]).contains(b)
}

/// Whether `path` leads from the entry point or from a method along calls.
pub open spec fn is_walk(bodies: Map<Seq<char>, Seq<Stmt>>, path: Seq<Seq<char>>) -> bool {
    &&& path.len() > 0
    &&& is_root(bodies, path[0])
    &&& forall|i: int|
        0 <= i < path.len() - 1 ==> walks_to(bodies, #[trigger] path[i], path[i + 1])
}

/// Whether calls lead from the entry point or from a method to `name`.
pub open spec fn walked(bodies: Map<Seq<char>, Seq<Stmt>>, name: Seq<char>) -> bool {
    exists|path: Seq<Seq<char>>| #[trigger] is_walk(bodies, path) && path.last() == name
}

/// Whether there is no entry point, as in a file that is only a library.
pub open spec fn rootless(bodies: Map<Seq<char>, Seq<Stmt>>) -> bool {
    !bodies.contains_key(entry_text())
}

/// The reachable names: every function where there is no entry point, else what calls lead to from
/// the entry point and from the methods, these included.
pub open spec fn reachable_from(bodies: Map<Seq<char>, Seq<Stmt>>) -> Set<Seq<char>> {
    if rootless(bodies) {
        bodies.dom()
    } else {
        Set::new(|name: Seq<char>| walked(bodies, name))
    }
}

/// The names that [`compute_reachable`] keeps of `module`.
pub open spec fn reachable_names(module: Module) -> Set<Seq<char>> {
    reachable_from(module_bodies(module))
}

/// The bodies found so far, by name, with their names listed.
struct BodyTable<'a> {
    keys: NameSet,
    index: StringHashMap<&'a Vec<Stmt>>,
}

impl<'a> BodyTable<'a> {
    spec fn bodies(&self) -> Map<Seq<char>, Seq<Stmt>> {
        self.index@.map_values(|body: &'a Vec<Stmt>| body@)
    }

    spec fn wf(&self) -> bool {
        &&& self.keys.wf()
        &&& self.keys@ == self.index@.dom()
    }

    fn new() -> (r: BodyTable<'a>)
        ensures
            r.wf(),
            r.bodies() == Map::<Seq<char>, Seq<Stmt>>::empty(),
    {
        let r = BodyTable { keys: NameSet::new(), index: StringHashMap::new() };
        proof {
            assert(r.keys@ =~= r.index@.dom());
            assert(r.bodies() =~= Map::<Seq<char>, Seq<Stmt>>::empty());
        }
        r
    }

    fn insert(&mut self, name: String, body: &'a Vec<Stmt>)
        requires
            old(self).wf(),
        ensures
            final(self).wf(),
            final(self).bodies() == old(self).bodies().insert(name@, body@),
    {
        self.keys.insert(name.clone());
        self.index.insert(name, body);
        proof {
            assert(self.keys@ =~= self.index@.dom());
            assert(self.bodies() =~= old(self).bodies().insert(name@, body@));
        }
    }

    fn get(&self, name: &str) -> (r: Option<&'a Vec<Stmt>>)
        ensures
            match r {
                Some(body) => self.bodies().contains_key(name@) && self.bodies()[name@] == body@,
                None => !self.bodies().contains_key(name@),
            },
    {
        match self.index.get(name) {
            Some(body) => Some(*body),
            None => None,
        }
    }
}

/// Whether `name` is an entry point of a compiled program.
pub fn is_entry_point(name: &str) -> (r: bool)
    ensures
        r == (name@ == entry_text()),
{
    text::same_text(name, "main")
}

/// Enters the bodies of the functions and methods of `items`, modules included, into `out`.
fn collect_fn_bodies<'a>(items: &'a Vec<Item>, out: &mut BodyTable<'a>)
    requires
        old(out).wf(),
    ensures
        final(out).wf(),
        final(out).bodies() == old(out).bodies().union_prefer_right(
            fn_bodies(items@, items@.len()),
        ),
    decreases items@,
{
    let ghost start = out.bodies();
    let mut i: usize = 0;
    assert(start.union_prefer_right(fn_bodies(items@, 0)) =~= start);
    while i < items.len()
        invariant
            i <= items@.len(),
            out.wf(),
            out.bodies() == start.union_prefer_right(fn_bodies(items@, i as nat)),
        decreases items@.len() - i,
    {
        let ghost before = fn_bodies(items@, i as nat);
        match &items[i] {
            Item::FnDef(f) => out.insert(f.name.clone(), &f.body),
            Item::ImplBlock(block) => {
                let mut k: usize = 0;
                while k < block.methods.len()
                    invariant
                        k <= block.methods@.len(),
                        out.wf(),
                        out.bodies() == start.union_prefer_right(
                            with_methods(before, block.methods@, k as nat),
                        ),
                    decreases block.methods@.len() - k,
                {
                    let mut key: String = "__impl_method__".to_owned();
                    key.append(block.methods[k].name.as_str());
                    out.insert(key, &block.methods[k].body);
                    k = k + 1;
                    assert(out.bodies() =~= start.union_prefer_right(
                        with_methods(before, block.methods@, k as nat),
                    ));
                }
            },
            Item::ModDecl { inline: Some(inner), .. } => collect_fn_bodies(inner, out),
            _ => {},
        }
        i = i + 1;
        assert(out.bodies() =~= start.union_prefer_right(fn_bodies(items@, i as nat)));
    }
}

/// A call from a walked function leads on.
proof fn lemma_walk_extends(bodies: Map<Seq<char>, Seq<Stmt>>, a: Seq<char>, b: Seq<char>)
    requires
        walked(bodies, a),
        walks_to(bodies, a, b),
    ensures
        walked(bodies, b),
{
    let path = choose|path: Seq<Seq<char>>| #[trigger]
        is_walk(bodies, path) && path.last() == a;
    let longer = path.push(b);
    assert forall|i: int| 0 <= i < longer.len() - 1 implies walks_to(
        bodies,
        #[trigger] longer[i],
        longer[i + 1],
    ) by {
        assert(longer[i] == path[i]);
    }
    assert(is_walk(bodies, longer));
    assert(longer.last() == b);
}

/// A root is walked.
proof fn lemma_root_is_walked(bodies: Map<Seq<char>, Seq<Stmt>>, name: Seq<char>)
    requires
        is_root(bodies, name),
    ensures
        walked(bodies, name),
{
    let path = seq![name];
    assert(is_walk(bodies, path));
    assert(path.last() == name);
}

/// Whether `s` holds the roots and, with a name, what its body calls.
pub open spec fn is_closed(bodies: Map<Seq<char>, Seq<Stmt>>, s: Set<Seq<char>>) -> bool {
    &&& forall|name: Seq<char>| #[trigger] is_root(bodies, name) ==> s.contains(name)
    &&& forall|a: Seq<char>, b: Seq<char>|
        s.contains(a) && #[trigger] walks_to(bodies, a, b) ==> s.contains(b)
}

/// A closed set holds every walked name.
proof fn lemma_closed_set_holds_walked(
    bodies: Map<Seq<char>, Seq<Stmt>>,
    s: Set<Seq<char>>,
    name: Seq<char>,
)
    requires
        is_closed(bodies, s),
        walked(bodies, name),
    ensures
        s.contains(name),
{
    let path = choose|path: Seq<Seq<char>>| #[trigger]
        is_walk(bodies, path) && path.last() == name;
    lemma_closed_set_holds_path(bodies, s, path, path.len() - 1);
}

proof fn lemma_closed_set_holds_path(
    bodies: Map<Seq<char>, Seq<Stmt>>,
    s: Set<Seq<char>>,
    path: Seq<Seq<char>>,
    k: int,
)
    requires
        is_closed(bodies, s),
        is_walk(bodies, path),
        0 <= k < path.len(),
    ensures
        s.contains(path[k]),
    decreases k,
{
    if k > 0 {
        lemma_closed_set_holds_path(bodies, s, path, k - 1);
        assert(walks_to(bodies, path[k - 1], path[k]));
    }
}

/// The first `n` of a list hold what the first `n - 1` hold, and the last of them.
proof fn lemma_take_contains(s: Seq<Seq<char>>, n: int)
    requires
        0 < n <= s.len(),
    ensures
        forall|x: Seq<char>| #[trigger]
            s.take(n).contains(x) <==> s.take(n - 1).contains(x) || x == s[n - 1],
{
    let was = s.take(n - 1);
    let now = s.take(n);
    assert forall|x: Seq<char>| #[trigger] now.contains(x) <==> was.contains(x) || x == s[n - 1] by {
        if was.contains(x) {
            let k = choose|k: int| 0 <= k < was.len() && was[k] == x;
            assert(now[k] == x);
        }
        assert(now[n - 1] == s[n - 1]);
        if now.contains(x) && x != s[n - 1] {
            let k = choose|k: int| 0 <= k < now.len() && now[k] == x;
            assert(was[k] == x);
        }
    }
}

/// A list that grows by one element holds that element and what it held.
proof fn lemma_push_contains(s: Seq<Seq<char>>, last: Seq<char>)
    ensures
        forall|x: Seq<char>| #[trigger] s.push(last).contains(x) <==> s.contains(x) || x == last,
{
    let longer = s.push(last);
    assert(longer.take(longer.len() - 1) =~= s);
    assert(longer.take(longer.len() as int) =~= longer);
    lemma_take_contains(longer, longer.len() as int);
}

/// The function names that a program can reach: what calls lead to from the entry point and from
/// the methods, or every function where there is no entry point.
pub fn compute_reachable(module: &Module) -> (r: NameSet)
    ensures
        r.wf(),
        r@ == reachable_names(*module),
{
    let mut table = BodyTable::new();
    collect_fn_bodies(&module.items, &mut table);
    let ghost bodies = table.bodies();
    proof {
        assert(Map::<Seq<char>, Seq<Stmt>>::empty().union_prefer_right(module_bodies(*module))
            =~= module_bodies(*module));
        assert(table.keys@ =~= bodies.dom());
    }
    let mut reachable = NameSet::new();
    let mut queue: VecDeque<String> = VecDeque::new();
    let mut has_entry: bool = false;
    let keys = table.keys.names();
    let ghost listed = text::texts(keys@);
    assert(text::texts(queue@) =~= Seq::empty());

    let mut i: usize = 0;
    while i < keys.len()
        invariant
            i <= keys@.len(),
            listed == text::texts(keys@),
            reachable.wf(),
            has_entry == listed.take(i as int).contains(entry_text()),
            forall|name: Seq<char>| #[trigger]
                reachable@.contains(name) <==> (name == entry_text() || is_method(name))
                    && listed.take(i as int).contains(name),
            text::texts(queue@).no_duplicates(),
            forall|name: Seq<char>| #[trigger]
                text::texts(queue@).contains(name) <==> reachable@.contains(name),
        decreases keys@.len() - i,
    {
        let ghost queued = text::texts(queue@);
        let entry: bool = is_entry_point(keys[i].as_str());
        proof {
            lemma_take_contains(listed, i + 1);
            assert(listed[i as int] == keys@[i as int]@);
        }
        if entry {
            has_entry = true;
        }
        if entry || text::contains_text(keys[i].as_str(), "__impl_method__") {
            if reachable.insert(keys[i].clone()) {
                queue.push_back(keys[i].clone());
                proof {
                    assert(!queued.contains(listed[i as int]));
                    assert(text::texts(queue@) =~= queued.push(listed[i as int]));
                    lemma_push_contains(queued, listed[i as int]);
                }
            }
        }
        i = i + 1;
    }
    proof {
        assert(listed.take(keys@.len() as int) =~= listed);
        assert forall|name: Seq<char>| listed.contains(name) <==> bodies.contains_key(name) by {
            assert(listed.to_set().contains(name) <==> bodies.dom().contains(name));
        }
    }
    if !has_entry {
        return table.keys;
    }
    walk(&table, &mut reachable, queue);
    reachable
}

/// Follows the calls from the queued names, and adds to `reachable` what they lead to.
fn walk<'a>(table: &BodyTable<'a>, reachable: &mut NameSet, start: VecDeque<String>)
    requires
        table.wf(),
        old(reachable).wf(),
        forall|name: Seq<char>| #[trigger]
            old(reachable)@.contains(name) <==> is_root(table.bodies(), name),
        text::texts(start@).no_duplicates(),
        forall|name: Seq<char>| #[trigger]
            text::texts(start@).contains(name) <==> old(reachable)@.contains(name),
    ensures
        final(reachable).wf(),
        final(reachable)@ == Set::new(|name: Seq<char>| walked(table.bodies(), name)),
{
    let ghost bodies = table.bodies();
    let ghost mut done: Set<Seq<char>> = Set::empty();
    let mut queue = start;
    proof {
        assert forall|name: Seq<char>| #[trigger] reachable@.contains(name) implies walked(
            bodies,
            name,
        ) by {
            lemma_root_is_walked(bodies, name);
        }
        assert(bodies.dom() =~= table.index@.dom());
    }
    let names = table.keys.names();
    proof {
        vstd::seq_lib::seq_to_set_is_finite(text::texts(names@));
        assert(bodies.dom().finite());
    }
    while queue.len() > 0
        invariant
            reachable.wf(),
            bodies == table.bodies(),
            bodies.dom().finite(),
            done.subset_of(bodies.dom()),
            text::texts(queue@).no_duplicates(),
            forall|name: Seq<char>| #[trigger] is_root(bodies, name) ==> reachable@.contains(name),
            forall|name: Seq<char>| #[trigger] reachable@.contains(name) ==> walked(bodies, name),
            forall|name: Seq<char>| #[trigger]
                text::texts(queue@).contains(name) ==> reachable@.contains(name) && !done.contains(
                    name,
                ),
            forall|a: Seq<char>, b: Seq<char>|
                reachable@.contains(a) && #[trigger] walks_to(bodies, a, b) && !text::texts(
                    queue@,
                ).contains(a) ==> reachable@.contains(b),
            forall|name: Seq<char>| #[trigger] done.contains(name) ==> reachable@.contains(name),
        decreases bodies.dom().len() - done.len(), queue@.len(),
    {
        let ghost waiting = text::texts(queue@);
        let ghost before = reachable@;
        let name: String = queue.pop_front().unwrap();
        let ghost rest = text::texts(queue@);
        proof {
            assert(rest =~= waiting.skip(1));
            assert(name@ == waiting[0]);
            assert(waiting.contains(name@));
            assert forall|n: Seq<char>| waiting.contains(n) <==> rest.contains(n) || n == name@ by {
                if rest.contains(n) {
                    let k = choose|k: int| 0 <= k < rest.len() && rest[k] == n;
                    assert(waiting[k + 1] == n);
                }
                if waiting.contains(n) && n != name@ {
                    let k = choose|k: int| 0 <= k < waiting.len() && waiting[k] == n;
                    assert(rest[k - 1] == n);
                }
            }
            assert(!rest.contains(name@)) by {
                if rest.contains(name@) {
                    let k = choose|k: int| 0 <= k < rest.len() && rest[k] == name@;
                    assert(waiting[k + 1] == waiting[0]);
                }
            }
            assert(rest.no_duplicates());
        }
        if let Some(body) = table.get(name.as_str()) {
            let mut callees = NameSet::new();
            calls::collect_calls_block(body, &mut callees);
            let found = callees.names();
            let ghost called = text::texts(found@);
            proof {
                assert(Set::<Seq<char>>::empty() + calls::body_calls(body@) =~= calls::body_calls(
                    body@,
                ));
                assert forall|b: Seq<char>| walks_to(bodies, name@, b) <==> called.contains(b) by {
                    assert(called.to_set().contains(b) <==> calls::body_calls(body@).contains(b));
                }
            }
            let ghost done_before = done;
            proof {
                done = done.insert(name@);
                vstd::set_lib::lemma_len_subset(done, bodies.dom());
                vstd::set_lib::lemma_len_subset(done_before, bodies.dom());
            }
            let mut i: usize = 0;
            while i < found.len()
                invariant
                    i <= found@.len(),
                    called == text::texts(found@),
                    reachable.wf(),
                    bodies == table.bodies(),
                    walked(bodies, name@),
                    text::texts(queue@).no_duplicates(),
                    forall|b: Seq<char>| #[trigger]
                        walks_to(bodies, name@, b) <==> called.contains(b),
                    forall|j: int| 0 <= j < i ==> reachable@.contains(#[trigger] called[j]),
                    forall|n: Seq<char>| #[trigger] reachable@.contains(n) ==> walked(bodies, n),
                    forall|n: Seq<char>| #[trigger] before.contains(n) ==> reachable@.contains(n),
                    forall|n: Seq<char>| #[trigger]
                        reachable@.contains(n) && !before.contains(n) ==> text::texts(
                            queue@,
                        ).contains(n),
                    forall|n: Seq<char>|
                        rest.contains(n) ==> #[trigger] text::texts(queue@).contains(n),
                    forall|n: Seq<char>| #[trigger]
                        text::texts(queue@).contains(n) ==> reachable@.contains(n) && (
                        rest.contains(n) || !before.contains(n)),
                decreases found@.len() - i,
            {
                let ghost queued = text::texts(queue@);
                let callee: String = found[i].clone();
                let ghost next = callee@;
                proof {
                    assert(called[i as int] == next);
                    assert(called.contains(next));
                    lemma_walk_extends(bodies, name@, next);
                }
                if reachable.insert(callee.clone()) {
                    queue.push_back(callee);
                    proof {
                        assert(text::texts(queue@) =~= queued.push(next));
                        assert(!queued.contains(next));
                        lemma_push_contains(queued, next);
                    }
                }
                i = i + 1;
            }
            proof {
                assert forall|a: Seq<char>, b: Seq<char>|
                    reachable@.contains(a) && #[trigger] walks_to(bodies, a, b) && !text::texts(
                        queue@,
                    ).contains(a) implies reachable@.contains(b) by {
                    if a == name@ {
                        assert(called.contains(b));
                        let k = choose|k: int| 0 <= k < called.len() && called[k] == b;
                        assert(reachable@.contains(called[k]));
                    } else {
                        assert(before.contains(a));
                        assert(!waiting.contains(a));
                        assert(before.contains(b));
                    }
                }
            }
        }
    }
    proof {
        assert(text::texts(queue@).len() == 0);
        let target = Set::new(|name: Seq<char>| walked(bodies, name));
        assert forall|name: Seq<char>| reachable@.contains(name) <==> target.contains(name) by {
            if walked(bodies, name) {
                lemma_closed_set_holds_walked(bodies, reachable@, name);
            }
        }
        assert(reachable@ =~= target);
    }
}

/// The entry point is reachable wherever it is defined.
pub proof fn law_entry_is_reachable(module: Module)
    ensures
        module_bodies(module).contains_key(entry_text()) ==> reachable_names(module).contains(
            entry_text(),
        ),
{
    if module_bodies(module).contains_key(entry_text()) {
        lemma_root_is_walked(module_bodies(module), entry_text());
    }
}

/// What a reachable function or method calls is reachable, where there is an entry point.
pub proof fn law_callees_are_reachable(module: Module, caller: Seq<char>, callee: Seq<char>)
    requires
        !rootless(module_bodies(module)),
        reachable_names(module).contains(caller),
        walks_to(module_bodies(module), caller, callee),
    ensures
        reachable_names(module).contains(callee),
{
    lemma_walk_extends(module_bodies(module), caller, callee);
}

/// Nothing is reachable without need: every set that holds the entry point and the methods, and
/// that is closed under calls, holds all reachable names.
pub proof fn law_reachable_is_least(module: Module, s: Set<Seq<char>>)
    requires
        !rootless(module_bodies(module)),
        is_closed(module_bodies(module), s),
    ensures
        reachable_names(module).subset_of(s),
{
    assert forall|name: Seq<char>| reachable_names(module).contains(name) implies s.contains(
        name,
    ) by {
        lemma_closed_set_holds_walked(module_bodies(module), s, name);
    }
}

/// Without an entry point every function and method is reachable.
pub proof fn law_rootless_keeps_all(module: Module, name: Seq<char>)
    requires
        rootless(module_bodies(module)),
    ensures
        reachable_names(module).contains(name) <==> module_bodies(module).contains_key(name),
{
}

/// Whether `a` and `b` have the same bodies but for the one under `name`.
spec fn differ_at(
    a: Map<Seq<char>, Seq<Stmt>>,
    b: Map<Seq<char>, Seq<Stmt>>,
    name: Seq<char>,
) -> bool {
    forall|n: Seq<char>|
        n != name ==> a.contains_key(n) == b.contains_key(n) && #[trigger] a[n] == #[trigger] b[n]
}

/// A walk through `a` is one through `b` where the two differ only at a name that no walk through
/// `b` comes to.
proof fn lemma_walk_transfers(
    a: Map<Seq<char>, Seq<Stmt>>,
    b: Map<Seq<char>, Seq<Stmt>>,
    name: Seq<char>,
    path: Seq<Seq<char>>,
    k: int,
)
    requires
        differ_at(a, b, name),
        !is_root(a, name),
        !walked(b, name),
        is_walk(a, path),
        0 <= k < path.len(),
    ensures
        walked(b, path[k]),
    decreases k,
{
    if k == 0 {
        assert(a[path[0]] == b[path[0]]);
        lemma_root_is_walked(b, path[0]);
    } else {
        lemma_walk_transfers(a, b, name, path, k - 1);
        assert(walks_to(a, path[k - 1], path[k]));
        assert(a[path[k - 1]] == b[path[k - 1]]);
        lemma_walk_extends(b, path[k - 1], path[k]);
    }
}

proof fn lemma_walked_transfers(
    a: Map<Seq<char>, Seq<Stmt>>,
    b: Map<Seq<char>, Seq<Stmt>>,
    name: Seq<char>,
    n: Seq<char>,
)
    requires
        differ_at(a, b, name),
        !is_root(a, name),
        !walked(b, name),
        walked(a, n),
    ensures
        walked(b, n),
{
    let path = choose|path: Seq<Seq<char>>| #[trigger] is_walk(a, path) && path.last() == n;
    lemma_walk_transfers(a, b, name, path, path.len() - 1);
}

/// A body under a name that is no root, and that nothing reachable calls, reaches nothing more.
proof fn lemma_dead_body(bodies: Map<Seq<char>, Seq<Stmt>>, name: Seq<char>, body: Seq<Stmt>)
    requires
        !rootless(bodies),
        !is_method(name),
        !reachable_from(bodies).contains(name),
    ensures
        reachable_from(bodies.insert(name, body)) == reachable_from(bodies),
{
    let more = bodies.insert(name, body);
    assert(!walked(bodies, name));
    assert(name != entry_text()) by {
        lemma_root_is_walked(bodies, entry_text());
    }
    assert(differ_at(bodies, more, name));
    assert(differ_at(more, bodies, name));
    assert forall|n: Seq<char>| walked(more, n) implies walked(bodies, n) by {
        lemma_walked_transfers(more, bodies, name, n);
    }
    assert forall|n: Seq<char>| walked(bodies, n) implies walked(more, n) by {
        lemma_walked_transfers(bodies, more, name, n);
    }
    assert(reachable_from(more) =~= reachable_from(bodies));
}

/// Entering methods behind `a` and behind `a` overlaid with `b` differs by the overlay alone.
proof fn lemma_with_methods_overlay(
    a: Map<Seq<char>, Seq<Stmt>>,
    b: Map<Seq<char>, Seq<Stmt>>,
    methods: Seq<FnDef>,
    n: nat,
)
    ensures
        with_methods(a.union_prefer_right(b), methods, n) == a.union_prefer_right(
            with_methods(b, methods, n),
        ),
    decreases n,
{
    if n > 0 && n <= methods.len() {
        lemma_with_methods_overlay(a, b, methods, (n - 1) as nat);
    }
    assert(with_methods(a.union_prefer_right(b), methods, n) =~= a.union_prefer_right(
        with_methods(b, methods, n),
    ));
}

/// What stands behind the first `n` items does not change their bodies.
proof fn lemma_bodies_of_prefix(a: Seq<Item>, b: Seq<Item>, n: nat)
    requires
        n <= a.len(),
    ensures
        fn_bodies(a + b, n) == fn_bodies(a, n),
    decreases n,
{
    if n > 0 {
        lemma_bodies_of_prefix(a, b, (n - 1) as nat);
        assert((a + b)[n - 1] == a[n - 1]);
    }
}

proof fn lemma_bodies_of_concat(a: Seq<Item>, b: Seq<Item>, n: nat)
    requires
        n <= b.len(),
    ensures
        fn_bodies(a + b, a.len() + n) == fn_bodies(a, a.len()).union_prefer_right(fn_bodies(b, n)),
    decreases n,
{
    let first = fn_bodies(a, a.len());
    if n == 0 {
        lemma_bodies_of_prefix(a, b, a.len());
    } else {
        lemma_bodies_of_concat(a, b, (n - 1) as nat);
        assert((a + b)[a.len() + n - 1] == b[n - 1]);
        match b[n - 1] {
            Item::ImplBlock(block) => {
                lemma_with_methods_overlay(
                    first,
                    fn_bodies(b, (n - 1) as nat),
                    block.methods@,
                    block.methods@.len(),
                );
            },
            _ => {},
        }
    }
    assert(fn_bodies(a + b, a.len() + n) =~= first.union_prefer_right(fn_bodies(b, n)));
}

/// The bodies of two lists of items, one behind the other, are those of the first list, overlaid
/// with those of the second.
pub proof fn law_bodies_of_concatenation(a: Seq<Item>, b: Seq<Item>)
    ensures
        fn_bodies(a + b, (a + b).len()) == fn_bodies(a, a.len()).union_prefer_right(
            fn_bodies(b, b.len()),
        ),
{
    lemma_bodies_of_concat(a, b, b.len());
}

/// Adding a function that no reachable code calls, at any place, changes nothing.
pub proof fn law_dead_functions_change_nothing(module: Module, more: Module, f: FnDef, at: int)
    requires
        0 <= at <= module.items@.len(),
        more.items@ == module.items@.insert(at, Item::FnDef(f)),
        !rootless(module_bodies(module)),
        !is_method(f.name@),
        !reachable_names(module).contains(f.name@),
    ensures
        reachable_names(more) == reachable_names(module),
{
    let items = module.items@;
    let a = items.take(at);
    let b = items.skip(at);
    let one = seq![Item::FnDef(f)];
    assert(items =~= a + b);
    assert(more.items@ =~= a + one + b);
    law_bodies_of_concatenation(a, b);
    law_bodies_of_concatenation(a + one, b);
    law_bodies_of_concatenation(a, one);
    let head = fn_bodies(a, a.len());
    let tail = fn_bodies(b, b.len());
    assert(fn_bodies(one, 0) == Map::<Seq<char>, Seq<Stmt>>::empty());
    assert(fn_bodies(one, 1) == Map::<Seq<char>, Seq<Stmt>>::empty().insert(f.name@, f.body@));
    if tail.contains_key(f.name@) {
        assert(module_bodies(more) =~= module_bodies(module));
    } else {
        assert(module_bodies(more) =~= module_bodies(module).insert(f.name@, f.body@));
        lemma_dead_body(module_bodies(module), f.name@, f.body@);
    }
}

/// Whether one of the first `n` items, or an item of a module among them, is an `impl` block with a
/// method `name`.
pub open spec fn declares_method(items: Seq<Item>, n: nat, name: Seq<char>) -> bool
    decreases items, n,
{
    if n == 0 || n > items.len() {
        false
    } else {
        declares_method(items, (n - 1) as nat, name) || match items[n - 1] {
            Item::ImplBlock(block) => exists|k: int|
                0 <= k < block.methods@.len() && (#[trigger] block.methods@[k]).name@ == name,
            Item::ModDecl { inline: Some(inner), .. } => declares_method(
                inner@,
                inner@.len(),
                name,
            ),
            _ => false,
        }
    }
}

/// Methods are never pruned: each is reachable under its tagged name, whoever calls it.
pub proof fn law_methods_are_reachable(module: Module, name: Seq<char>)
    requires
        declares_method(module.items@, module.items@.len(), name),
    ensures
        reachable_names(module).contains(method_tag() + name),
{
    lemma_methods_have_bodies(module.items@, module.items@.len(), name);
    let key = method_tag() + name;
    assert(key.subrange(0, method_tag().len() as int) =~= method_tag());
    assert(text::occurs_at(key, method_tag(), 0));
    assert(is_root(module_bodies(module), key));
    if !rootless(module_bodies(module)) {
        lemma_root_is_walked(module_bodies(module), key);
    }
}

/// A declared method has a body under its tagged name.
proof fn lemma_methods_have_bodies(items: Seq<Item>, n: nat, name: Seq<char>)
    requires
        declares_method(items, n, name),
    ensures
        fn_bodies(items, n).contains_key(method_tag() + name),
    decreases items, n,
{
    let before = fn_bodies(items, (n - 1) as nat);
    if declares_method(items, (n - 1) as nat, name) {
        lemma_methods_have_bodies(items, (n - 1) as nat, name);
    }
    match items[n - 1] {
        Item::ImplBlock(block) => {
            lemma_with_methods_keys(before, block.methods@, block.methods@.len(), name);
        },
        Item::ModDecl { inline: Some(inner), .. } => {
            if declares_method(inner@, inner@.len(), name) {
                lemma_methods_have_bodies(inner@, inner@.len(), name);
            }
        },
        _ => {},
    }
}

/// Entering methods keeps the names that are there and adds those of the methods.
proof fn lemma_with_methods_keys(
    bodies: Map<Seq<char>, Seq<Stmt>>,
    methods: Seq<FnDef>,
    n: nat,
    name: Seq<char>,
)
    requires
        n <= methods.len(),
    ensures
        bodies.contains_key(method_tag() + name) ==> with_methods(bodies, methods, n).contains_key(
            method_tag() + name,
        ),
        forall|k: int|
            0 <= k < n && (#[trigger] methods[k]).name@ == name ==> with_methods(
                bodies,
                methods,
                n,
            ).contains_key(method_tag() + name),
    decreases n,
{
    if n > 0 {
        lemma_with_methods_keys(bodies, methods, (n - 1) as nat, name);
    }
}

} // verus!
