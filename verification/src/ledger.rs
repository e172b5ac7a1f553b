use crate::address::Address;
use crate::error::GalnoError;
use vstd::prelude::*;

verus! {

/// The singleton record that names the one identity allowed to withdraw.
#[derive(Clone, Copy, Debug, PartialEq, Eq)]
pub struct Config {
    pub authority: Address,
}

/// The holding account. It carries no fields: it only holds a balance.
#[derive(Clone, Copy, Debug, PartialEq, Eq)]
pub struct Vault {}

/// What an account stores besides its balance.
#[derive(Clone, Copy, Debug, PartialEq, Eq)]
pub enum AccountData {
    /// A plain account that only holds currency.
    System,
    Config(Config),
    Vault(Vault),
}

/// One row of the account table.
#[derive(Clone, Copy, Debug, PartialEq, Eq)]
pub struct Account {
    pub address: Address,
    pub lamports: u64,
    pub data: AccountData,
}

/// The mathematical content of `AccountData`.
pub enum Kind {
    System,
    Config { authority: Seq<u8> },
    Vault,
}

/// The mathematical content of an account: its balance and what it stores.
pub struct Entry {
    pub lamports: nat,
    pub kind: Kind,
}

impl View for AccountData {
    type V = Kind;

    open spec fn view(&self) -> Kind {
        match self {
            AccountData::System => Kind::System,
            AccountData::Config(c) => Kind::Config { authority: c.authority@ },
            AccountData::Vault(_) => Kind::Vault,
        }
    }
}

impl View for Account {
    type V = Entry;

    open spec fn view(&self) -> Entry {
        Entry { lamports: self.lamports as nat, kind: self.data@ }
    }
}

/// The balance at `a`; an address without an account holds nothing.
pub open spec fn balance(m: Map<Seq<u8>, Entry>, a: Seq<u8>) -> nat {
    if m.contains_key(a) {
        m[a].lamports
    } else {
        0
    }
}

/// What is stored at `a`; an address without an account counts as plain.
pub open spec fn kind_of(m: Map<Seq<u8>, Entry>, a: Seq<u8>) -> Kind {
    if m.contains_key(a) {
        m[a].kind
    } else {
        Kind::System
    }
}

/// The table after `amount` has left `a`. An absent account stays absent.
pub open spec fn debited(m: Map<Seq<u8>, Entry>, a: Seq<u8>, amount: nat) -> Map<Seq<u8>, Entry> {
    if m.contains_key(a) {
        m.insert(a, Entry { lamports: (m[a].lamports - amount) as nat, kind: m[a].kind })
    } else {
        m
    }
}

/// The table after `amount` has arrived at `a`, which comes into being as a
/// plain account if it was absent.
pub open spec fn credited(m: Map<Seq<u8>, Entry>, a: Seq<u8>, amount: nat) -> Map<Seq<u8>, Entry> {
    m.insert(a, Entry { lamports: balance(m, a) + amount, kind: kind_of(m, a) })
}

/// The table with `kind` stored at `a`, the balance there kept.
pub open spec fn allocated(m: Map<Seq<u8>, Entry>, a: Seq<u8>, kind: Kind) -> Map<Seq<u8>, Entry> {
    m.insert(a, Entry { lamports: balance(m, a), kind })
}

/// Why a transfer of `amount` from `from` to `to` is refused, if it is.
pub open spec fn transfer_refusal(
    m: Map<Seq<u8>, Entry>,
    from: Seq<u8>,
    to: Seq<u8>,
    amount: nat,
) -> Option<GalnoError> {
    if balance(m, from) < amount {
        Some(GalnoError::InsufficientFunds)
    } else if balance(debited(m, from, amount), to) + amount > u64::MAX {
        Some(GalnoError::BalanceOverflow)
    } else {
        None
    }
}

/// The table after a transfer that is not refused.
pub open spec fn transferred(
    m: Map<Seq<u8>, Entry>,
    from: Seq<u8>,
    to: Seq<u8>,
    amount: nat,
) -> Map<Seq<u8>, Entry> {
    credited(debited(m, from, amount), to, amount)
}

/// `k` is the first row of `s` that stands at address `a`.
pub closed spec fn first_at(s: Seq<Account>, a: Seq<u8>, k: int) -> bool {
    &&& 0 <= k < s.len()
    &&& s[k].address@ == a
    &&& forall|j: int| 0 <= j < k ==> (#[trigger] s[j]).address@ != a
}

/// The table that a sequence of rows stands for: each address maps to the
/// first row that names it.
pub closed spec fn table(s: Seq<Account>) -> Map<Seq<u8>, Entry> {
    Map::new(
        |a: Seq<u8>| exists|k: int| first_at(s, a, k),
        |a: Seq<u8>| s[choose|k: int| first_at(s, a, k)]@,
    )
}

proof fn lemma_present(s: Seq<Account>, a: Seq<u8>, k: int)
    requires
        first_at(s, a, k),
    ensures
        table(s).contains_key(a),
        table(s)[a] == s[k]@,
{
    let c = choose|c: int| first_at(s, a, c);
    assert(first_at(s, a, c));
    if c < k {
        assert(s[c].address@ == a);
    }
    if k < c {
        assert(s[k].address@ == a);
    }
}

proof fn lemma_absent(s: Seq<Account>, a: Seq<u8>)
    requires
        forall|k: int| 0 <= k < s.len() ==> (#[trigger] s[k]).address@ != a,
    ensures
        !table(s).contains_key(a),
{
}

proof fn lemma_replace(s: Seq<Account>, k: int, x: Account)
    requires
        first_at(s, x.address@, k),
    ensures
        table(s.update(k, x)) == table(s).insert(x.address@, x@),
{
    let t = s.update(k, x);
    let a = x.address@;
    assert forall|b: Seq<u8>, j: int| first_at(s, b, j) <==> first_at(t, b, j) by {
        assert(s[k].address@ == t[k].address@);
        if first_at(s, b, j) {
            assert forall|i: int| 0 <= i < j implies (#[trigger] t[i]).address@ != b by {
                assert(s[i].address@ != b);
            }
        }
        if first_at(t, b, j) {
            assert forall|i: int| 0 <= i < j implies (#[trigger] s[i]).address@ != b by {
                assert(t[i].address@ != b);
            }
        }
    }
    assert(first_at(t, a, k));
    lemma_present(t, a, k);
    assert forall|b: Seq<u8>| table(t).contains_key(b) <==> table(s).insert(a, x@).contains_key(
        b,
    ) by {
        if table(t).contains_key(b) {
            let j = choose|j: int| first_at(t, b, j);
            assert(first_at(s, b, j));
        }
        if table(s).contains_key(b) {
            let j = choose|j: int| first_at(s, b, j);
            assert(first_at(t, b, j));
        }
    }
    assert forall|b: Seq<u8>| table(t).contains_key(b) implies table(t)[b] == table(s).insert(
        a,
        x@,
    )[b] by {
        if b != a {
            let j = choose|j: int| first_at(t, b, j);
            assert(first_at(s, b, j));
            lemma_present(s, b, j);
            lemma_present(t, b, j);
            assert(j != k);
        }
    }
    assert(table(t) =~= table(s).insert(a, x@));
}

proof fn lemma_append(s: Seq<Account>, x: Account)
    requires
        forall|k: int| 0 <= k < s.len() ==> (#[trigger] s[k]).address@ != x.address@,
    ensures
        table(s.push(x)) == table(s).insert(x.address@, x@),
{
    let t = s.push(x);
    let a = x.address@;
    let n = s.len() as int;
    assert forall|b: Seq<u8>, j: int| first_at(s, b, j) implies first_at(t, b, j) by {
        assert(t[j] == s[j]);
        assert forall|i: int| 0 <= i < j implies (#[trigger] t[i]).address@ != b by {
            assert(s[i].address@ != b);
        }
    }
    assert forall|b: Seq<u8>, j: int| first_at(t, b, j) && j < n implies first_at(s, b, j) by {
        assert(t[j] == s[j]);
        assert forall|i: int| 0 <= i < j implies (#[trigger] s[i]).address@ != b by {
            assert(t[i].address@ != b);
        }
    }
    assert(first_at(t, a, n)) by {
        assert(t[n] == x);
        assert forall|i: int| 0 <= i < n implies (#[trigger] t[i]).address@ != a by {
            assert(s[i].address@ != a);
        }
    }
    lemma_present(t, a, n);
    lemma_absent(s, a);
    assert forall|b: Seq<u8>| table(t).contains_key(b) <==> table(s).insert(a, x@).contains_key(
        b,
    ) by {
        if table(t).contains_key(b) && b != a {
            let j = choose|j: int| first_at(t, b, j);
            assert(t[j].address@ == b);
            assert(j < n);
            assert(first_at(s, b, j));
        }
        if table(s).contains_key(b) {
            let j = choose|j: int| first_at(s, b, j);
            assert(first_at(t, b, j));
        }
    }
    assert forall|b: Seq<u8>| table(t).contains_key(b) implies table(t)[b] == table(s).insert(
        a,
        x@,
    )[b] by {
        if b != a {
            let j = choose|j: int| first_at(t, b, j);
            assert(t[j].address@ == b);
            assert(j < n);
            assert(first_at(s, b, j));
            lemma_present(s, b, j);
            lemma_present(t, b, j);
        }
    }
    assert(table(t) =~= table(s).insert(a, x@));
}

/// The host's account table: balances and stored records, by address.
/// Its view is the map from each address that has an account to its content.
pub struct Ledger {
    accounts: Vec<Account>,
}

impl View for Ledger {
    type V = Map<Seq<u8>, Entry>;

    closed spec fn view(&self) -> Map<Seq<u8>, Entry> {
        table(self.accounts@)
    }
}

impl Ledger {
    /// A table without accounts.
    pub fn new() -> (ledger: Ledger)
        ensures
            ledger@ == Map::<Seq<u8>, Entry>::empty(),
    {
        let ledger = Ledger { accounts: Vec::new() };
        proof {
            assert(ledger@ =~= Map::<Seq<u8>, Entry>::empty());
        }
        ledger
    }

    fn find(&self, a: &Address) -> (r: Option<usize>)
        ensures
            match r {
                Some(k) => first_at(self.accounts@, a@, k as int),
                None => forall|k: int|
                    0 <= k < self.accounts@.len() ==> (#[trigger] self.accounts@[k]).address@
                        != a@,
            },
    {
        let mut i: usize = 0;
        while i < self.accounts.len()
            invariant
                0 <= i <= self.accounts@.len(),
                forall|k: int| 0 <= k < i ==> (#[trigger] self.accounts@[k]).address@ != a@,
            decreases self.accounts@.len() - i,
        {
            if self.accounts[i].address.same(a) {
                return Some(i);
            }
            i += 1;
        }
        None
    }

    /// The account at `a`, if there is one.
    pub fn lookup(&self, a: &Address) -> (r: Option<Account>)
        ensures
            match r {
                Some(account) => self@.contains_key(a@) && self@[a@] == account@
                    && account.address@ == a@,
                None => !self@.contains_key(a@),
            },
    {
        match self.find(a) {
            Some(k) => {
                proof {
                    lemma_present(self.accounts@, a@, k as int);
                }
                Some(self.accounts[k])
            },
            None => {
                proof {
                    lemma_absent(self.accounts@, a@);
                }
                None
            },
        }
    }

    /// Stores `lamports` and `data` at `a`, in place of what was there.
    fn put(&mut self, a: &Address, lamports: u64, data: AccountData)
        ensures
            final(self)@ == old(self)@.insert(a@, Entry { lamports: lamports as nat, kind: data@ }),
    {
        let x = Account { address: *a, lamports, data };
        match self.find(a) {
            Some(k) => {
                proof {
                    lemma_replace(self.accounts@, k as int, x);
                }
                self.accounts.set(k, x);
            },
            None => {
                proof {
                    lemma_append(self.accounts@, x);
                }
                self.accounts.push(x);
            },
        }
    }

    /// The balance at `a`: zero where there is no account.
    pub fn balance(&self, a: &Address) -> (r: u64)
        ensures
            r == balance(self@, a@),
    {
        match self.lookup(a) {
            Some(account) => account.lamports,
            None => 0,
        }
    }

    /// What is stored at `a`: plain where there is no account.
    pub fn data(&self, a: &Address) -> (r: AccountData)
        ensures
            r@ == kind_of(self@, a@),
    {
        match self.lookup(a) {
            Some(account) => account.data,
            None => AccountData::System,
        }
    }

    /// Stores `data` at `a` and keeps the balance there, if nothing but a
    /// plain account stands at `a`; a stored record is never written over.
    pub fn allocate(&mut self, a: &Address, data: AccountData) -> (r: Result<(), GalnoError>)
        ensures
            r == if kind_of(old(self)@, a@) is System {
                Ok::<(), GalnoError>(())
            } else {
                Err::<(), GalnoError>(GalnoError::AlreadyInitialized)
            },
            final(self)@ == if kind_of(old(self)@, a@) is System {
                allocated(old(self)@, a@, data@)
            } else {
                old(self)@
            },
    {
        match self.data(a) {
            AccountData::System => {},
            _ => {
                return Err(GalnoError::AlreadyInitialized);
            },
        }
        let lamports = self.balance(a);
        self.put(a, lamports, data);
        Ok(())
    }

    /// Adds `amount` to the balance at `a` from outside the table, unless the
    /// balance would no longer fit.
    pub fn fund(&mut self, a: &Address, amount: u64) -> (r: Result<(), GalnoError>)
        ensures
            balance(old(self)@, a@) + amount <= u64::MAX ==> r == Ok::<(), GalnoError>(())
                && final(self)@ == credited(
                old(self)@,
                a@,
                amount as nat,
            ),
            balance(old(self)@, a@) + amount > u64::MAX ==> r == Err::<(), GalnoError>(
                GalnoError::BalanceOverflow,
            ) && final(self)@ == old(self)@,
    {
        let held = self.balance(a);
        if amount > u64::MAX - held {
            return Err(GalnoError::BalanceOverflow);
        }
        let data = self.data(a);
        self.put(a, held + amount, data);
        Ok(())
    }

    /// Why a transfer would be refused, if it would; the table is not touched.
    pub fn refusal(&self, from: &Address, to: &Address, amount: u64) -> (r: Option<GalnoError>)
        ensures
            r == transfer_refusal(self@, from@, to@, amount as nat),
    {
        let held = self.balance(from);
        if held < amount {
            return Some(GalnoError::InsufficientFunds);
        }
        let before: u64 = if from.same(to) {
            held - amount
        } else {
            self.balance(to)
        };
        if amount > u64::MAX - before {
            return Some(GalnoError::BalanceOverflow);
        }
        None
    }

    /// Moves `amount` from `from` to `to`, wholly or not at all.
    pub fn transfer(&mut self, from: &Address, to: &Address, amount: u64) -> (r: Result<
        (),
        GalnoError,
    >)
        ensures
            match transfer_refusal(old(self)@, from@, to@, amount as nat) {
                Some(e) => r == Err::<(), GalnoError>(e) && final(self)@ == old(self)@,
                None => r == Ok::<(), GalnoError>(()) && final(self)@ == transferred(
                    old(self)@,
                    from@,
                    to@,
                    amount as nat,
                ),
            },
    {
        match self.refusal(from, to, amount) {
            Some(e) => {
                return Err(e);
            },
            None => {},
        }
        let held = self.balance(from);
        let before: u64 = if from.same(to) {
            held - amount
        } else {
            self.balance(to)
        };
        match self.lookup(from) {
            Some(source) => {
                self.put(from, held - amount, source.data);
            },
            None => {},
        }
        let data = self.data(to);
        self.put(to, before + amount, data);
        Ok(())
    }
}

} // verus!
