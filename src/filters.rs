use vstd::prelude::*;

verus! {

/// One entry of the persisted collection catalog.
pub struct CollectionItem {
    pub image: String,
    pub name: String,
    pub symbol: String,
    pub total_items: Option<u32>,
    pub on_chain_collection_address: Option<String>,
}

/// The persisted collection catalog, in file order.
pub struct Collections {
    pub collections: Vec<CollectionItem>,
}

/// An entry is listed when it states a non-zero number of items.
pub open spec fn is_listed(item: CollectionItem) -> bool {
    match item.total_items {
        Some(n) => n != 0,
        None => false,
    }
}

/// The entries of `items` that are listed, in their original order.
pub open spec fn listed(items: Seq<CollectionItem>) -> Seq<CollectionItem> {
    items.filter(|item: CollectionItem| is_listed(item))
}

/// The index of the first entry whose symbol is `symbol`, if any.
pub open spec fn first_with_symbol(items: Seq<CollectionItem>, symbol: Seq<char>) -> Option<int>
    decreases items.len(),
{
    if items.len() == 0 {
        None
    } else {
        match first_with_symbol(items.drop_last(), symbol) {
            Some(i) => Some(i),
            None => if items.last().symbol@ == symbol {
                Some(items.len() - 1)
            } else {
                None
            },
        }
    }
}

/// The on-chain address of the first entry with `symbol`; none when no entry
/// has that symbol or the first one that has it gives no address.
pub open spec fn address_of(items: Seq<CollectionItem>, symbol: Seq<char>) -> Option<String> {
    match first_with_symbol(items, symbol) {
        Some(i) => items[i].on_chain_collection_address,
        None => None,
    }
}

proof fn lemma_first_with_symbol_step(items: Seq<CollectionItem>, symbol: Seq<char>, i: int)
    requires
        0 <= i < items.len(),
        first_with_symbol(items.take(i), symbol) is None,
    ensures
        first_with_symbol(items.take(i + 1), symbol) == (if items[i].symbol@ == symbol {
            Some(i)
        } else {
            None::<int>
        }),
{
    assert(items.take(i + 1).drop_last() =~= items.take(i));
}

proof fn lemma_first_with_symbol_prefix(items: Seq<CollectionItem>, symbol: Seq<char>, i: int)
    requires
        0 <= i < items.len(),
        first_with_symbol(items.take(i + 1), symbol) == Some(i),
    ensures
        first_with_symbol(items, symbol) == Some(i),
    decreases items.len(),
{
    if items.len() == i + 1 {
        assert(items.take(i + 1) =~= items);
    } else {
        assert(items.drop_last().take(i + 1) =~= items.take(i + 1));
        lemma_first_with_symbol_prefix(items.drop_last(), symbol, i);
    }
}

proof fn lemma_first_with_symbol_none(items: Seq<CollectionItem>, symbol: Seq<char>)
    requires
        first_with_symbol(items.take(items.len() as int), symbol) is None,
    ensures
        first_with_symbol(items, symbol) is None,
{
    assert(items.take(items.len() as int) =~= items);
}

/// Filtering the catalog twice keeps the same entries as filtering it once.
pub proof fn lemma_drop_empty_idempotent(items: Seq<CollectionItem>)
    ensures
        listed(listed(items)) == listed(items),
    decreases items.len(),
{
    reveal(Seq::filter);
    if items.len() > 0 {
        let rest = items.drop_last();
        lemma_drop_empty_idempotent(rest);
        if is_listed(items.last()) {
            let once = listed(rest).push(items.last());
            assert(once.drop_last() =~= listed(rest));
            assert(listed(once) == listed(listed(rest)).push(items.last()));
        }
    }
}

impl Collections {
    /// Removes the entries whose item count is absent or zero, keeping the
    /// order of the others.
    pub fn drop_empty_collections(self) -> (r: Self)
        ensures
            r.collections@ == listed(self.collections@),
    {
        let ghost original = self.collections@;
        let mut source = self.collections;
        let mut kept: Vec<CollectionItem> = Vec::new();
        let ghost mut done: int = 0;
        proof {
            reveal(Seq::filter);
            assert(original.take(0) =~= Seq::<CollectionItem>::empty());
        }
        while source.len() > 0
            invariant
                0 <= done,
                done + source@.len() == original.len(),
                source@ == original.skip(done),
                kept@ == listed(original.take(done)),
            decreases source@.len(),
        {
            let item = source.remove(0);
            proof {
                reveal(Seq::filter);
                assert(original.take(done + 1).drop_last() =~= original.take(done));
                assert(original.take(done + 1).last() == item);
                assert(original.skip(done + 1) =~= original.skip(done).drop_first());
            }
            let listed_item = match item.total_items {
                Some(n) => n != 0,
                None => false,
            };
            if listed_item {
                kept.push(item);
            }
            proof {
                done = done + 1;
            }
        }
        proof {
            assert(original.take(done) =~= original);
        }
        Collections { collections: kept }
    }

    /// The on-chain address of the first entry whose symbol is
    /// `collection_symbol`; `None` when there is no such entry or it has no
    /// address.
    pub fn get_address(self, collection_symbol: &str) -> (r: Option<String>)
        ensures
            r == address_of(self.collections@, collection_symbol@),
    {
        let wanted = collection_symbol.to_owned();
        let ghost original = self.collections@;
        let mut items = self.collections;
        let mut i: usize = 0;
        while i < items.len()
            invariant
                items@ == original,
                self.collections@ == original,
                i <= items@.len(),
                wanted@ == collection_symbol@,
                first_with_symbol(original.take(i as int), collection_symbol@) is None,
            decreases items@.len() - i,
        {
            proof {
                lemma_first_with_symbol_step(original, collection_symbol@, i as int);
            }
            if items[i].symbol == wanted {
                proof {
                    lemma_first_with_symbol_prefix(original, collection_symbol@, i as int);
                }
                let item = items.remove(i);
                assert(item == original[i as int]);
                assert(first_with_symbol(original, collection_symbol@) == Some(i as int));
                let address = item.on_chain_collection_address;
                assert(address_of(original, collection_symbol@) == address);
                return address;
            }
            i = i + 1;
        }
        proof {
            lemma_first_with_symbol_none(original, collection_symbol@);
        }
        None
    }
}

} // verus!
