use vstd::prelude::*;

verus! {

/// The character sequences of a list of strings.
pub open spec fn strings_view(list: Seq<String>) -> Seq<Seq<char>> {
    list.map_values(|s: String| s@)
}

/// What a post-processor supports: for each canned cycle it can emit (such
/// as `"drill"`), the patterns it can run that cycle on (such as
/// `"circular"`). A cycle is listed at most once.
#[derive(Debug)]
pub struct PostprocessorCapabilities {
    cycles: Vec<(String, Vec<String>)>,
}

impl PostprocessorCapabilities {
    #[verifier::type_invariant]
    spec fn cycles_distinct(self) -> bool {
        forall|i: int, j: int|
            0 <= i < j < self.cycles@.len() ==> #[trigger] self.cycles@[i].0@
                != #[trigger] self.cycles@[j].0@
    }

    /// Some entry is for `name`.
    closed spec fn has_cycle(self, name: Seq<char>) -> bool {
        exists|i: int| 0 <= i < self.cycles@.len() && #[trigger] self.cycles@[i].0@ == name
    }
}

impl View for PostprocessorCapabilities {
    type V = Map<Seq<char>, Seq<Seq<char>>>;

    /// Each cycle with its patterns.
    closed spec fn view(&self) -> Map<Seq<char>, Seq<Seq<char>>> {
        Map::new(
            |name: Seq<char>| self.has_cycle(name),
            |name: Seq<char>|
                strings_view(
                    self.cycles@[choose|i: int|
                        0 <= i < self.cycles@.len() && #[trigger] self.cycles@[i].0@ == name].1@,
                ),
        )
    }
}

impl PostprocessorCapabilities {
    /// No cycle at all.
    pub fn new() -> (r: PostprocessorCapabilities)
        ensures
            r@ == Map::<Seq<char>, Seq<Seq<char>>>::empty(),
    {
        let r = PostprocessorCapabilities { cycles: Vec::new() };
        assert(r@ =~= Map::<Seq<char>, Seq<Seq<char>>>::empty());
        r
    }

    /// The index of the entry for `name`, if there is one.
    fn position(&self, name: &String) -> (r: Option<usize>)
        ensures
            match r {
                Some(i) => i < self.cycles@.len() && self.cycles@[i as int].0@ == name@,
                None => !self.has_cycle(name@),
            },
    {
        let n = self.cycles.len();
        for i in 0..n
            invariant
                n == self.cycles@.len(),
                forall|k: int| 0 <= k < i ==> #[trigger] self.cycles@[k].0@ != name@,
        {
            if self.cycles[i].0.eq(name) {
                return Some(i);
            }
        }
        None
    }

    /// Records that the post-processor runs cycle `name` on `patterns`,
    /// in place of what was recorded for `name` before.
    pub fn insert(&mut self, name: String, patterns: Vec<String>)
        ensures
            final(self)@ == old(self)@.insert(name@, strings_view(patterns@)),
    {
        proof {
            use_type_invariant(&*self);
        }
        let ghost before = self@;
        let mut cycles: Vec<(String, Vec<String>)> = Vec::new();
        std::mem::swap(&mut cycles, &mut self.cycles);
        let ghost old_cycles = cycles@;
        let found = {
            let tmp = PostprocessorCapabilities { cycles };
            let p = tmp.position(&name);
            cycles = tmp.cycles;
            p
        };
        let ghost key = name@;
        let ghost value = strings_view(patterns@);
        match found {
            Some(i) => {
                cycles.set(i, (name, patterns));
                assert forall|a: int, b: int|
                    0 <= a < b < cycles@.len() implies #[trigger] cycles@[a].0@
                    != #[trigger] cycles@[b].0@ by {
                    assert(old_cycles[a].0@ != old_cycles[b].0@);
                }
            },
            None => {
                cycles.push((name, patterns));
            },
        }
        self.cycles = cycles;
        proof {
            let after = self@;
            assert forall|k: Seq<char>| #[trigger] after.dom().contains(k) == before.insert(key, value).dom().contains(k) by {
                if k != key {
                    if after.dom().contains(k) {
                        let j = choose|j: int| 0 <= j < self.cycles@.len() && #[trigger] self.cycles@[j].0@ == k;
                        assert(old_cycles[j].0@ == k);
                    }
                    if before.dom().contains(k) {
                        let j = choose|j: int| 0 <= j < old_cycles.len() && #[trigger] old_cycles[j].0@ == k;
                        assert(self.cycles@[j].0@ == k);
                    }
                } else {
                    match found {
                        Some(i) => assert(self.cycles@[i as int].0@ == k),
                        None => assert(self.cycles@[old_cycles.len() as int].0@ == k),
                    }
                }
            }
            assert forall|k: Seq<char>| #[trigger] after.dom().contains(k) implies after[k] == before.insert(key, value)[k] by {
                let j = choose|j: int| 0 <= j < self.cycles@.len() && #[trigger] self.cycles@[j].0@ == k;
                if k != key {
                    let jo = choose|j: int| 0 <= j < old_cycles.len() && #[trigger] old_cycles[j].0@ == k;
                    assert(self.cycles@[jo].0@ == k);
                    assert(jo == j);
                } else {
                    match found {
                        Some(i) => assert(j == i),
                        None => assert(j == old_cycles.len()),
                    }
                }
            }
            assert(after =~= before.insert(key, value));
        }
    }

    /// The patterns that cycle `name` runs on, if the post-processor has it.
    pub fn cycle(&self, name: &str) -> (r: Option<&Vec<String>>)
        ensures
            match r {
                Some(patterns) => self@.contains_key(name@) && strings_view(patterns@) == self@[name@],
                None => !self@.contains_key(name@),
            },
    {
        proof {
            use_type_invariant(self);
        }
        let key = name.to_owned();
        match self.position(&key) {
            Some(i) => {
                proof {
                    let j = choose|j: int| 0 <= j < self.cycles@.len() && #[trigger] self.cycles@[j].0@ == name@;
                    assert(j == i);
                }
                Some(&self.cycles[i].1)
            },
            None => None,
        }
    }

    /// The post-processor has cycle `name`.
    pub fn has(&self, name: &str) -> (r: bool)
        ensures
            r == self@.contains_key(name@),
    {
        self.cycle(name).is_some()
    }
}

impl Default for PostprocessorCapabilities {
    /// No cycle at all.
    fn default() -> (r: PostprocessorCapabilities)
        ensures
            r@ == Map::<Seq<char>, Seq<Seq<char>>>::empty(),
    {
        PostprocessorCapabilities::new()
    }
}

/// `text` is one of `list`.
pub fn contains_text(list: &Vec<String>, text: &str) -> (r: bool)
    ensures
        r == strings_view(list@).contains(text@),
{
    let key = text.to_owned();
    let n = list.len();
    for i in 0..n
        invariant
            n == list@.len(),
            key@ == text@,
            forall|k: int| 0 <= k < i ==> #[trigger] list@[k]@ != text@,
    {
        if list[i].eq(&key) {
            assert(strings_view(list@)[i as int] == text@);
            return true;
        }
    }
    assert(!strings_view(list@).contains(text@)) by {
        if strings_view(list@).contains(text@) {
            let k = choose|k: int| 0 <= k < strings_view(list@).len() && strings_view(list@)[k] == text@;
            assert(list@[k]@ == text@);
        }
    }
    false
}

} // verus!
