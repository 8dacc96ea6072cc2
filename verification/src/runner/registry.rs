use crate::text::owned;
use vstd::prelude::*;

verus! {

/// `v[i]` is the first module registered under `id`.
pub open spec fn registered_at<M>(v: Seq<(Seq<char>, M)>, i: int, id: Seq<char>) -> bool {
    &&& 0 <= i < v.len()
    &&& v[i].0 == id
    &&& forall|j: int| 0 <= j < i ==> (#[trigger] v[j]).0 != id
}

/// Some module is registered under `id`.
pub open spec fn is_registered<M>(v: Seq<(Seq<char>, M)>, id: Seq<char>) -> bool {
    exists|i: int| 0 <= i < v.len() && (#[trigger] v[i]).0 == id
}

/// The module registered under `id`, if any.
pub open spec fn lookup<M>(v: Seq<(Seq<char>, M)>, id: Seq<char>) -> Option<M> {
    if is_registered(v, id) {
        Some(v[choose|i: int| registered_at(v, i, id)].1)
    } else {
        None
    }
}

/// A catalog of modules, each under the id of the activity kind it handles.
pub struct Registry<M> {
    modules: Vec<(String, M)>,
}

impl<M> View for Registry<M> {
    type V = Seq<(Seq<char>, M)>;

    /// The modules with their ids, in the order of registration.
    closed spec fn view(&self) -> Seq<(Seq<char>, M)> {
        self.modules@.map_values(|e: (String, M)| (e.0@, e.1))
    }
}

/// The first place of each id is the only one.
pub proof fn lemma_registered_at_unique<M>(v: Seq<(Seq<char>, M)>, i: int, k: int, id: Seq<char>)
    requires
        registered_at(v, i, id),
        registered_at(v, k, id),
    ensures
        i == k,
{
    if i < k {
        assert(v[i].0 != id);
    } else if k < i {
        assert(v[k].0 != id);
    }
}

/// A registered id has a first place.
pub proof fn lemma_first_registered<M>(v: Seq<(Seq<char>, M)>, id: Seq<char>)
    requires
        is_registered(v, id),
    ensures
        exists|i: int| registered_at(v, i, id),
    decreases v.len(),
{
    let u = v.drop_last();
    if is_registered(u, id) {
        lemma_first_registered(u, id);
        let i = choose|i: int| registered_at(u, i, id);
        assert forall|j: int| 0 <= j < i implies (#[trigger] v[j]).0 != id by {
            assert(u[j] == v[j]);
        }
        assert(registered_at(v, i, id));
    } else {
        let k = choose|k: int| 0 <= k < v.len() && (#[trigger] v[k]).0 == id;
        if k < v.len() - 1 {
            assert(u[k] == v[k]);
        }
        assert forall|j: int| 0 <= j < v.len() - 1 implies (#[trigger] v[j]).0 != id by {
            assert(u[j] == v[j]);
        }
        assert(registered_at(v, v.len() - 1, id));
    }
}

impl<M> Registry<M> {
    pub fn new() -> (r: Registry<M>)
        ensures
            r@ == Seq::<(Seq<char>, M)>::empty(),
    {
        let r = Registry { modules: Vec::new() };
        assert(r@ =~= Seq::<(Seq<char>, M)>::empty());
        r
    }

    /// Registers a module under an id. Refused, with the registry unchanged, when
    /// a module is already registered under that id.
    pub fn register_module(&mut self, id: &str, module: M) -> (r: Result<(), String>)
        ensures
            r is Err <==> is_registered(old(self)@, id@),
            r is Ok ==> final(self)@ == old(self)@.push((id@, module)),
            r matches Err(msg) ==> final(self)@ == old(self)@ && msg@ == "Module with id "@ + id@
                + " already exists"@,
    {
        if self.get_module(id).is_some() {
            let mut msg = owned("Module with id ");
            msg.append(id);
            msg.append(" already exists");
            return Err(msg);
        }
        let ghost before = self@;
        self.modules.push((owned(id), module));
        assert(self@ =~= before.push((id@, module)));
        Ok(())
    }

    /// The first module registered under the id of an activity kind.
    pub fn get_module(&self, activity_kind: &str) -> (r: Option<&M>)
        ensures
            r is None <==> !is_registered(self@, activity_kind@),
            r matches Some(m) ==> lookup(self@, activity_kind@) == Some(*m),
    {
        let ghost v = self@;
        let mut i: usize = 0;
        while i < self.modules.len()
            invariant
                v == self@,
                i <= self.modules@.len(),
                forall|j: int| 0 <= j < i ==> (#[trigger] v[j]).0 != activity_kind@,
            decreases self.modules@.len() - i,
        {
            if crate::api::execution::str_equal(self.modules[i].0.as_str(), activity_kind) {
                assert(registered_at(v, i as int, activity_kind@));
                proof {
                    let k = choose|k: int| registered_at(v, k, activity_kind@);
                    lemma_registered_at_unique(v, i as int, k, activity_kind@);
                }
                return Some(&self.modules[i].1);
            }
            i = i + 1;
        }
        assert(!is_registered(v, activity_kind@)) by {
            if is_registered(v, activity_kind@) {
                let k = choose|k: int| 0 <= k < v.len() && (#[trigger] v[k]).0 == activity_kind@;
                assert(v[k].0 != activity_kind@);
            }
        }
        None
    }
}

} // verus!
