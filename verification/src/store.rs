use crate::trade::TradeModel;
use vstd::prelude::*;

verus! {

/// A mapping from trade ids to trades.
pub trait TradeModelStore {
    /// The trades that the store holds, by their ids.
    spec fn trades(&self) -> Map<Seq<char>, TradeModel>;

    /// Puts a trade into the store, in place of any trade of the same id.
    fn add_trade_model(&mut self, trade_model: TradeModel)
        ensures
            final(self).trades() == old(self).trades().insert(trade_model.trade_id@, trade_model),
    ;

    /// The trade of an id, if the store holds one.
    fn get_trade_model(&self, trade_id: &str) -> (r: Option<&TradeModel>)
        ensures
            r is Some <==> self.trades().contains_key(trade_id@),
            r matches Some(trade_model) ==> *trade_model == self.trades()[trade_id@]
                && trade_model.trade_id@ == trade_id@,
    ;

    /// Takes the trade of an id out of the store, if the store holds one.
    fn take_trade_model(&mut self, trade_id: &str) -> (r: Option<TradeModel>)
        ensures
            r is Some <==> old(self).trades().contains_key(trade_id@),
            r matches Some(trade_model) ==> trade_model == old(self).trades()[trade_id@]
                && trade_model.trade_id@ == trade_id@,
            final(self).trades() == old(self).trades().remove(trade_id@),
    ;
}

/// Whether no two trades of a list have the same id.
pub open spec fn distinct_ids(models: Seq<TradeModel>) -> bool {
    forall|i: int, j: int|
        0 <= i < j < models.len() ==> (#[trigger] models[i]).trade_id@ != (
        #[trigger] models[j]).trade_id@
}

/// Whether a list holds a trade of an id.
pub open spec fn holds_id(models: Seq<TradeModel>, trade_id: Seq<char>) -> bool {
    exists|i: int| 0 <= i < models.len() && (#[trigger] models[i]).trade_id@ == trade_id
}

/// A place in a list at which a trade of an id stands, if there is one.
pub open spec fn place_of(models: Seq<TradeModel>, trade_id: Seq<char>) -> int {
    choose|i: int| 0 <= i < models.len() && (#[trigger] models[i]).trade_id@ == trade_id
}

/// The mapping that a list of trades stands for.
pub open spec fn trades_of(models: Seq<TradeModel>) -> Map<Seq<char>, TradeModel> {
    Map::new(
        |trade_id: Seq<char>| holds_id(models, trade_id),
        |trade_id: Seq<char>| models[place_of(models, trade_id)],
    )
}

/// In a list without two trades of one id, each trade is the one that the
/// mapping gives for its id.
pub proof fn lemma_trades_of_place(models: Seq<TradeModel>, i: int)
    requires
        distinct_ids(models),
        0 <= i < models.len(),
    ensures
        trades_of(models).contains_key(models[i].trade_id@),
        trades_of(models)[models[i].trade_id@] == models[i],
{
    let trade_id = models[i].trade_id@;
    assert(holds_id(models, trade_id));
    let j = place_of(models, trade_id);
    assert(0 <= j < models.len() && models[j].trade_id@ == trade_id);
    if i < j {
        assert(models[i].trade_id@ != models[j].trade_id@);
    } else if j < i {
        assert(models[j].trade_id@ != models[i].trade_id@);
    }
}

/// Appending a trade with a new id adds it to the mapping.
pub proof fn lemma_trades_of_push(models: Seq<TradeModel>, trade_model: TradeModel)
    requires
        distinct_ids(models),
        !holds_id(models, trade_model.trade_id@),
    ensures
        distinct_ids(models.push(trade_model)),
        trades_of(models.push(trade_model)) == trades_of(models).insert(
            trade_model.trade_id@,
            trade_model,
        ),
{
    let after = models.push(trade_model);
    assert forall|i: int, j: int| 0 <= i < j < after.len() implies (#[trigger] after[i]).trade_id@
        != (#[trigger] after[j]).trade_id@ by {
        if j == models.len() {
            assert(after[i] == models[i]);
            assert(!(0 <= i < models.len() && models[i].trade_id@ == trade_model.trade_id@));
        } else {
            assert(after[i] == models[i] && after[j] == models[j]);
        }
    }
    let expected = trades_of(models).insert(trade_model.trade_id@, trade_model);
    assert forall|trade_id: Seq<char>| #[trigger]
        trades_of(after).contains_key(trade_id) == expected.contains_key(trade_id) by {
        if holds_id(after, trade_id) {
            let i = place_of(after, trade_id);
            if i < models.len() {
                assert(models[i] == after[i]);
                assert(holds_id(models, trade_id));
            }
        }
        if holds_id(models, trade_id) {
            let i = place_of(models, trade_id);
            assert(after[i] == models[i]);
            assert(holds_id(after, trade_id));
        }
        if trade_id == trade_model.trade_id@ {
            assert(after[models.len() as int] == trade_model);
            assert(holds_id(after, trade_id));
        }
    }
    assert forall|trade_id: Seq<char>| #[trigger]
        trades_of(after).contains_key(trade_id) implies trades_of(after)[trade_id]
        == expected[trade_id] by {
        let i = place_of(after, trade_id);
        lemma_trades_of_place(after, i);
        if i < models.len() {
            assert(after[i] == models[i]);
            lemma_trades_of_place(models, i);
        }
    }
    assert(trades_of(after) =~= expected);
}

/// Putting a trade in the place of one with the same id replaces it in the
/// mapping.
pub proof fn lemma_trades_of_update(models: Seq<TradeModel>, i: int, trade_model: TradeModel)
    requires
        distinct_ids(models),
        0 <= i < models.len(),
        models[i].trade_id@ == trade_model.trade_id@,
    ensures
        distinct_ids(models.update(i, trade_model)),
        trades_of(models.update(i, trade_model)) == trades_of(models).insert(
            trade_model.trade_id@,
            trade_model,
        ),
{
    let after = models.update(i, trade_model);
    assert forall|a: int, b: int| 0 <= a < b < after.len() implies (#[trigger] after[a]).trade_id@
        != (#[trigger] after[b]).trade_id@ by {
        assert(after[a].trade_id@ == models[a].trade_id@);
        assert(after[b].trade_id@ == models[b].trade_id@);
    }
    let expected = trades_of(models).insert(trade_model.trade_id@, trade_model);
    assert forall|trade_id: Seq<char>| #[trigger]
        trades_of(after).contains_key(trade_id) == expected.contains_key(trade_id) by {
        if holds_id(after, trade_id) {
            let a = place_of(after, trade_id);
            assert(models[a].trade_id@ == after[a].trade_id@);
            assert(holds_id(models, trade_id));
        }
        if holds_id(models, trade_id) {
            let a = place_of(models, trade_id);
            assert(after[a].trade_id@ == models[a].trade_id@);
            assert(holds_id(after, trade_id));
        }
        if trade_id == trade_model.trade_id@ {
            assert(after[i] == trade_model);
            assert(holds_id(after, trade_id));
        }
    }
    assert forall|trade_id: Seq<char>| #[trigger]
        trades_of(after).contains_key(trade_id) implies trades_of(after)[trade_id]
        == expected[trade_id] by {
        let a = place_of(after, trade_id);
        lemma_trades_of_place(after, a);
        if a != i {
            assert(after[a] == models[a]);
            lemma_trades_of_place(models, a);
        }
    }
    assert(trades_of(after) =~= expected);
}

/// Taking a trade out of the list takes its id out of the mapping.
pub proof fn lemma_trades_of_remove(models: Seq<TradeModel>, i: int)
    requires
        distinct_ids(models),
        0 <= i < models.len(),
    ensures
        distinct_ids(models.remove(i)),
        trades_of(models.remove(i)) == trades_of(models).remove(models[i].trade_id@),
{
    let after = models.remove(i);
    assert forall|a: int, b: int| 0 <= a < b < after.len() implies (#[trigger] after[a]).trade_id@
        != (#[trigger] after[b]).trade_id@ by {
        let a0 = if a < i { a } else { a + 1 };
        let b0 = if b < i { b } else { b + 1 };
        assert(after[a] == models[a0] && after[b] == models[b0]);
        assert(models[a0].trade_id@ != models[b0].trade_id@);
    }
    let expected = trades_of(models).remove(models[i].trade_id@);
    assert forall|trade_id: Seq<char>| #[trigger]
        trades_of(after).contains_key(trade_id) == expected.contains_key(trade_id) by {
        if holds_id(after, trade_id) {
            let a = place_of(after, trade_id);
            let a0 = if a < i { a } else { a + 1 };
            assert(after[a] == models[a0]);
            assert(holds_id(models, trade_id));
            if a0 < i {
                assert(models[a0].trade_id@ != models[i].trade_id@);
            } else {
                assert(models[i].trade_id@ != models[a0].trade_id@);
            }
        }
        if holds_id(models, trade_id) && trade_id != models[i].trade_id@ {
            let a0 = place_of(models, trade_id);
            let a = if a0 < i { a0 } else { a0 - 1 };
            assert(after[a] == models[a0]);
            assert(holds_id(after, trade_id));
        }
    }
    assert forall|trade_id: Seq<char>| #[trigger]
        trades_of(after).contains_key(trade_id) implies trades_of(after)[trade_id]
        == expected[trade_id] by {
        let a = place_of(after, trade_id);
        let a0 = if a < i { a } else { a + 1 };
        lemma_trades_of_place(after, a);
        assert(after[a] == models[a0]);
        lemma_trades_of_place(models, a0);
    }
    assert(trades_of(after) =~= expected);
}

/// A store that holds its trades in a list, in memory.
pub struct TradeModelMemoryStore {
    models: Vec<TradeModel>,
}

impl TradeModelMemoryStore {
    #[verifier::type_invariant]
    spec fn ids_are_distinct(&self) -> bool {
        distinct_ids(self.models@)
    }

    /// A store without trades.
    pub fn new() -> (r: TradeModelMemoryStore)
        ensures
            r.trades() == Map::<Seq<char>, TradeModel>::empty(),
    {
        let r = TradeModelMemoryStore { models: Vec::new() };
        assert(trades_of(r.models@) =~= Map::<Seq<char>, TradeModel>::empty());
        r
    }

    /// The number of trades in the store.
    pub fn len(&self) -> (r: usize)
        ensures
            r == self.trades().dom().len(),
            self.trades().dom().finite(),
    {
        proof {
            use_type_invariant(self);
            lemma_trades_of_len(self.models@);
        }
        self.models.len()
    }

    /// The place of the trade of an id in the list.
    fn find(&self, trade_id: &String) -> (r: Option<usize>)
        ensures
            r is Some <==> holds_id(self.models@, trade_id@),
            r matches Some(i) ==> i < self.models@.len() && self.models@[i as int].trade_id@
                == trade_id@,
    {
        let mut i: usize = 0;
        while i < self.models.len()
            invariant
                i <= self.models@.len(),
                forall|j: int| 0 <= j < i ==> (#[trigger] self.models@[j]).trade_id@ != trade_id@,
            decreases self.models@.len() - i,
        {
            if self.models[i].trade_id == *trade_id {
                return Some(i);
            }
            i += 1;
        }
        None
    }
}

/// A list without two trades of one id stands for a mapping of as many
/// trades as it is long.
pub proof fn lemma_trades_of_len(models: Seq<TradeModel>)
    requires
        distinct_ids(models),
    ensures
        trades_of(models).dom().finite(),
        trades_of(models).dom().len() == models.len(),
    decreases models.len(),
{
    if models.len() == 0 {
        assert(trades_of(models).dom() =~= Set::<Seq<char>>::empty());
    } else {
        let last = models.last();
        let rest = models.drop_last();
        assert forall|i: int, j: int| 0 <= i < j < rest.len() implies (#[trigger] rest[i]).trade_id@
            != (#[trigger] rest[j]).trade_id@ by {
            assert(rest[i] == models[i] && rest[j] == models[j]);
        }
        lemma_trades_of_len(rest);
        if holds_id(rest, last.trade_id@) {
            let i = place_of(rest, last.trade_id@);
            assert(rest[i] == models[i]);
            assert(models[i].trade_id@ != models[models.len() - 1].trade_id@);
        }
        lemma_trades_of_push(rest, last);
        assert(rest.push(last) =~= models);
        assert(trades_of(models).dom() =~= trades_of(rest).dom().insert(last.trade_id@));
        assert(!trades_of(rest).dom().contains(last.trade_id@));
    }
}

impl TradeModelStore for TradeModelMemoryStore {
    closed spec fn trades(&self) -> Map<Seq<char>, TradeModel> {
        trades_of(self.models@)
    }

    fn add_trade_model(&mut self, trade_model: TradeModel) {
        proof {
            use_type_invariant(&*self);
        }
        let found = self.find(&trade_model.trade_id);
        let mut models = Vec::new();
        std::mem::swap(&mut models, &mut self.models);
        match found {
            Some(i) => {
                proof {
                    lemma_trades_of_update(models@, i as int, trade_model);
                }
                models.set(i, trade_model);
            },
            None => {
                proof {
                    lemma_trades_of_push(models@, trade_model);
                }
                models.push(trade_model);
            },
        }
        self.models = models;
    }

    fn get_trade_model(&self, trade_id: &str) -> (r: Option<&TradeModel>) {
        proof {
            use_type_invariant(self);
        }
        let trade_id = trade_id.to_owned();
        match self.find(&trade_id) {
            Some(i) => {
                proof {
                    lemma_trades_of_place(self.models@, i as int);
                }
                Some(&self.models[i])
            },
            None => None,
        }
    }

    fn take_trade_model(&mut self, trade_id: &str) -> (r: Option<TradeModel>) {
        proof {
            use_type_invariant(&*self);
        }
        let trade_id = trade_id.to_owned();
        match self.find(&trade_id) {
            Some(i) => {
                let mut models = Vec::new();
                std::mem::swap(&mut models, &mut self.models);
                proof {
                    lemma_trades_of_place(models@, i as int);
                    lemma_trades_of_remove(models@, i as int);
                }
                let trade_model = models.remove(i);
                self.models = models;
                Some(trade_model)
            },
            None => {
                assert(self.trades().remove(trade_id@) =~= self.trades());
                None
            },
        }
    }
}

} // verus!
