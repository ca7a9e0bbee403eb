use vstd::prelude::*;

verus! {

/// A record of an approved authorization, kept so that a later reversal can
/// find the original transaction by its STAN.
pub struct Transaction {
    /// Primary Account Number.
    pub pan: String,
    /// Amount.
    pub amount: String,
    /// Systems Trace Audit Number.
    pub stan: String,
    /// Transmission date and time of the authorization.
    pub timestamp: String,
    /// Response code of the authorization ("00" for every stored record).
    pub response_code: String,
}

/// The mathematical content of a [`Transaction`]: each field as a sequence
/// of characters.
pub struct TransactionData {
    pub pan: Seq<char>,
    pub amount: Seq<char>,
    pub stan: Seq<char>,
    pub timestamp: Seq<char>,
    pub response_code: Seq<char>,
}

impl View for Transaction {
    type V = TransactionData;

    open spec fn view(&self) -> TransactionData {
        TransactionData {
            pan: self.pan@,
            amount: self.amount@,
            stan: self.stan@,
            timestamp: self.timestamp@,
            response_code: self.response_code@,
        }
    }
}

/// A mapping from STAN to stored transaction. Later insertions under the
/// same STAN overwrite earlier ones; nothing is ever removed. The
/// abstraction is the map from each key's view to the view of the record
/// most recently stored under it.
pub struct TransactionStore {
    entries: Vec<(String, Transaction)>,
}

spec fn map_of(entries: Seq<(String, Transaction)>) -> Map<Seq<char>, TransactionData>
    decreases entries.len(),
{
    if entries.len() == 0 {
        Map::empty()
    } else {
        map_of(entries.drop_last()).insert(entries.last().0@, entries.last().1@)
    }
}

proof fn lemma_map_of_contains_key(entries: Seq<(String, Transaction)>, key: Seq<char>)
    ensures
        map_of(entries).contains_key(key) <==> (exists|j: int|
            0 <= j < entries.len() && #[trigger] entries[j].0@ == key),
    decreases entries.len(),
{
    if entries.len() == 0 {
    } else {
        let prefix = entries.drop_last();
        lemma_map_of_contains_key(prefix, key);
        if entries.last().0@ == key {
            assert(entries[entries.len() - 1].0@ == key);
        } else {
            if exists|j: int| 0 <= j < prefix.len() && #[trigger] prefix[j].0@ == key {
                let j = choose|j: int| 0 <= j < prefix.len() && #[trigger] prefix[j].0@ == key;
                assert(entries[j].0@ == key);
            }
            if exists|j: int| 0 <= j < entries.len() && #[trigger] entries[j].0@ == key {
                let j = choose|j: int| 0 <= j < entries.len() && #[trigger] entries[j].0@ == key;
                assert(prefix[j].0@ == key);
            }
        }
    }
}

impl View for TransactionStore {
    type V = Map<Seq<char>, TransactionData>;

    closed spec fn view(&self) -> Map<Seq<char>, TransactionData> {
        map_of(self.entries@)
    }
}

impl TransactionStore {
    /// Creates an empty store.
    pub fn new() -> (s: TransactionStore)
        ensures
            s@ == Map::<Seq<char>, TransactionData>::empty(),
    {
        TransactionStore { entries: Vec::new() }
    }

    /// Inserts `tx` under the key `stan`, overwriting any record already
    /// stored under that key. Total: no error conditions.
    pub fn put(&mut self, stan: String, tx: Transaction)
        ensures
            final(self)@ == old(self)@.insert(stan@, tx@),
    {
        let ghost previous = self.entries@;
        self.entries.push((stan, tx));
        proof {
            assert(self.entries@.drop_last() =~= previous);
        }
    }

    /// Reports whether a record is stored under the key `stan`. Does not
    /// mutate the store. Total: no error conditions.
    pub fn contains(&self, stan: &String) -> (found: bool)
        ensures
            found == self@.contains_key(stan@),
    {
        let n = self.entries.len();
        let mut i: usize = 0;
        while i < n
            invariant
                n == self.entries.len(),
                i <= n,
                forall|j: int| 0 <= j < i ==> #[trigger] self.entries@[j].0@ != stan@,
            decreases n - i,
        {
            if self.entries[i].0 == *stan {
                proof {
                    lemma_map_of_contains_key(self.entries@, stan@);
                }
                return true;
            }
            i = i + 1;
        }
        proof {
            lemma_map_of_contains_key(self.entries@, stan@);
        }
        false
    }
}

/// The state shared by the two handlers: the store of approved
/// authorizations, explicitly constructed and explicitly passed.
pub struct AppState {
    /// Approved transactions, keyed by STAN.
    pub authorized_transactions: TransactionStore,
}

impl AppState {
    /// Creates the state with an empty transaction store.
    pub fn new() -> (s: AppState)
        ensures
            s.authorized_transactions@ == Map::<Seq<char>, TransactionData>::empty(),
    {
        AppState { authorized_transactions: TransactionStore::new() }
    }
}

} // verus!
