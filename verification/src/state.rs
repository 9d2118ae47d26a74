//! The state that every request shares: the store and the pool of
//! execution contexts.

use crate::move_executor::available_cpus;
use crate::move_store::MoveStore;
use rand::Rng;
use vstd::prelude::*;

verus! {

/// `Rng::gen_range` on `rand::thread_rng()`: a number chosen at random
/// that is at least 0 and less than `bound`.
#[verifier::external_body]
fn random_below(bound: usize) -> (n: usize)
    requires
        bound > 0,
    ensures
        n < bound,
{
    rand::thread_rng().gen_range(0, bound)
}

/// The store and a pool of execution contexts, each made for that store.
///
/// The pool is made once and keeps its size. A request draws a slot at
/// random: no slot is preferred and none is owed a turn. What is in a slot
/// guards the context against use by two requests at a time.
pub struct RpcState<V> {
    move_store: MoveStore,
    vms: Vec<V>,
}

impl<V> RpcState<V> {
    /// The store that the pool was made for.
    pub closed spec fn store(&self) -> MoveStore {
        self.move_store
    }

    /// The slots of the pool.
    pub closed spec fn slots(&self) -> Seq<V> {
        self.vms@
    }

    /// The state with a pool of `pool_size` slots, or of one slot for each
    /// available CPU where no size is given. `make_vm` makes what goes in a
    /// slot, each time for the given store.
    pub fn new<F: Fn(&MoveStore) -> V>(
        move_store: MoveStore,
        pool_size: Option<usize>,
        make_vm: F,
    ) -> (state: RpcState<V>)
        requires
            call_requires(make_vm, (&move_store,)),
        ensures
            state.store() == move_store,
            pool_size matches Some(size) ==> state.slots().len() == size,
            pool_size is None ==> state.slots().len() >= 1,
            forall|i: int|
                0 <= i < state.slots().len() ==> call_ensures(
                    make_vm,
                    (&move_store,),
                    #[trigger] state.slots()[i],
                ),
    {
        let size = match pool_size {
            Some(size) => size,
            None => available_cpus(),
        };
        let mut vms: Vec<V> = Vec::new();
        let mut i: usize = 0;
        while i < size
            invariant
                i <= size,
                vms@.len() == i,
                call_requires(make_vm, (&move_store,)),
                forall|k: int|
                    0 <= k < i ==> call_ensures(make_vm, (&move_store,), #[trigger] vms@[k]),
            decreases size - i,
        {
            let vm = make_vm(&move_store);
            vms.push(vm);
            i += 1;
        }
        RpcState { move_store, vms }
    }

    /// The number of slots in the pool.
    pub fn pool_size(&self) -> (size: usize)
        ensures
            size == self.slots().len(),
    {
        self.vms.len()
    }

    /// The slot of the pool at `index`.
    pub fn slot(&self, index: usize) -> (vm: &V)
        requires
            index < self.slots().len(),
        ensures
            *vm == self.slots()[index as int],
    {
        &self.vms[index]
    }

    /// A slot of the pool, drawn at random.
    pub fn get_next_vm(&self) -> (vm: &V)
        requires
            self.slots().len() > 0,
        ensures
            self.slots().contains(*vm),
    {
        self.slot(random_below(self.vms.len()))
    }

    /// The store that the pool was made for.
    pub fn get_move_store(&self) -> (store: MoveStore)
        ensures
            store == self.store(),
    {
        self.move_store.clone()
    }
}

} // verus!
