//! The credential store: the table of accounts, its uniqueness rules, the
//! bootstrap account, and password verification.
//!
//! The table is held as plain values. Reading it from and writing it to a
//! storage location is the caller's part; this module decides what the table
//! may hold and what each operation answers. A password hash enters the
//! table through `new` and `insert_hashed` and leaves it through `users`
//! alone, for the storage layer; no lookup hands one out.

use vstd::prelude::*;
use crate::password::{bcrypt_verdict, hashed, verdict};
use crate::text::same_text;

verus! {

/// One stored account: a row of the table.
#[derive(Debug, Clone)]
pub struct User {
    pub id: i64,
    pub username: String,
    pub password_hash: String,
}

/// A stored account as contracts see it.
pub struct UserRow {
    pub id: i64,
    pub username: Seq<char>,
    pub password_hash: Seq<char>,
}

impl View for User {
    type V = UserRow;

    open spec fn view(&self) -> UserRow {
        UserRow { id: self.id, username: self.username@, password_hash: self.password_hash@ }
    }
}

/// What a lookup tells of an account: who it is, and nothing of its password.
#[derive(Debug)]
pub struct Account {
    pub id: i64,
    pub username: String,
}

/// An answer of a lookup as contracts see it.
pub struct AccountView {
    pub id: i64,
    pub username: Seq<char>,
}

impl View for Account {
    type V = AccountView;

    open spec fn view(&self) -> AccountView {
        AccountView { id: self.id, username: self.username@ }
    }
}

/// Why the store refused an operation.
#[derive(Clone, Copy, Debug, PartialEq, Eq, Structural)]
pub enum StoreError {
    /// The storage cannot take the write.
    IoFailure,
    /// The stored table breaks the schema's constraints.
    SchemaFailure,
    /// An account with that username exists already.
    DuplicateUsername,
    /// Hashing or checking a password failed internally.
    HashFailure,
}

/// The table as contracts see it: its rows in order, and the identifier
/// handed out last (the next account gets the one after).
pub struct Table {
    pub rows: Seq<UserRow>,
    pub last_id: int,
}

/// The rows of a sequence of stored accounts, in order.
pub open spec fn rows_of(users: Seq<User>) -> Seq<UserRow> {
    users.map_values(|u: User| u@)
}

/// What a lookup tells of a row.
pub open spec fn account_of(row: UserRow) -> AccountView {
    AccountView { id: row.id, username: row.username }
}

/// Some account carries `username`.
pub open spec fn has_username(rows: Seq<UserRow>, username: Seq<char>) -> bool {
    exists|i: int| 0 <= i < rows.len() && (#[trigger] rows[i]).username == username
}

/// Some account carries `id`.
pub open spec fn has_id(rows: Seq<UserRow>, id: i64) -> bool {
    exists|i: int| 0 <= i < rows.len() && (#[trigger] rows[i]).id == id
}

/// The row that carries `username`, if there is one.
pub open spec fn user_named(rows: Seq<UserRow>, username: Seq<char>) -> Option<UserRow> {
    if has_username(rows, username) {
        Some(rows[choose|i: int| 0 <= i < rows.len() && (#[trigger] rows[i]).username == username])
    } else {
        None
    }
}

/// The row that carries `id`, if there is one.
pub open spec fn user_with_id(rows: Seq<UserRow>, id: i64) -> Option<UserRow> {
    if has_id(rows, id) {
        Some(rows[choose|i: int| 0 <= i < rows.len() && (#[trigger] rows[i]).id == id])
    } else {
        None
    }
}

/// What a lookup by identifier answers: the account, without its hash.
pub open spec fn account_with_id(rows: Seq<UserRow>, id: i64) -> Option<AccountView> {
    match user_with_id(rows, id) {
        Some(row) => Some(account_of(row)),
        None => None,
    }
}

/// No two accounts share a username.
pub open spec fn distinct_usernames(rows: Seq<UserRow>) -> bool {
    forall|i: int, j: int|
        0 <= i < j < rows.len() ==> (#[trigger] rows[i]).username != (#[trigger] rows[j]).username
}

/// No two accounts share an identifier.
pub open spec fn distinct_ids(rows: Seq<UserRow>) -> bool {
    forall|i: int, j: int| 0 <= i < j < rows.len() ==> (#[trigger] rows[i]).id != (#[trigger] rows[j]).id
}

/// Every identifier is at least 1.
pub open spec fn positive_ids(rows: Seq<UserRow>) -> bool {
    forall|i: int| 0 <= i < rows.len() ==> (#[trigger] rows[i]).id >= 1
}

/// The constraints of the accounts table.
pub open spec fn rows_valid(rows: Seq<UserRow>) -> bool {
    &&& distinct_usernames(rows)
    &&& distinct_ids(rows)
    &&& positive_ids(rows)
}

/// A table is valid when its rows meet the schema's constraints and none
/// carries an identifier beyond the one handed out last.
pub open spec fn table_valid(table: Table) -> bool {
    &&& rows_valid(table.rows)
    &&& forall|i: int| 0 <= i < table.rows.len() ==> (#[trigger] table.rows[i]).id <= table.last_id
    &&& 0 <= table.last_id <= i64::MAX
}

/// The largest identifier in use, 0 for an empty table.
pub open spec fn max_id(rows: Seq<UserRow>) -> int
    decreases rows.len(),
{
    if rows.len() == 0 {
        0
    } else {
        let before = max_id(rows.drop_last());
        if rows.last().id > before {
            rows.last().id as int
        } else {
            before
        }
    }
}

/// What `verify_user` answers on a table, given bcrypt's verdicts: the
/// account on a match, nothing for an unknown name or a mismatch.
pub open spec fn verification(rows: Seq<UserRow>, username: Seq<char>, password: Seq<char>) -> Result<
    Option<AccountView>,
    StoreError,
> {
    match user_named(rows, username) {
        None => Ok(None),
        Some(row) => judgement(account_of(row), bcrypt_verdict(password, row.password_hash)),
    }
}

/// What `verify_user` answers once the account is found and bcrypt has
/// spoken.
pub open spec fn judgement(account: AccountView, verdict: Option<bool>) -> Result<
    Option<AccountView>,
    StoreError,
> {
    match verdict {
        Some(true) => Ok(Some(account)),
        Some(false) => Ok(None),
        None => Err(StoreError::HashFailure),
    }
}

/// What an insertion answers: the new identifier, or why the table refuses.
/// `hashed` tells whether hashing the password succeeded.
pub open spec fn insertion(table: Table, username: Seq<char>, hashed: bool) -> Result<i64, StoreError> {
    if has_username(table.rows, username) {
        Err(StoreError::DuplicateUsername)
    } else if table.last_id >= i64::MAX {
        Err(StoreError::IoFailure)
    } else if !hashed {
        Err(StoreError::HashFailure)
    } else {
        Ok((table.last_id + 1) as i64)
    }
}

/// The table after the row `row` was added under a fresh identifier.
pub open spec fn with_row(table: Table, row: UserRow) -> Table {
    Table { rows: table.rows.push(row), last_id: row.id as int }
}

/// The rows of a freshly initialised store: the bootstrap account alone,
/// named `admin`, with the empty password.
pub open spec fn bootstrapped(rows: Seq<UserRow>) -> bool {
    &&& rows.len() == 1
    &&& rows[0].id == 1
    &&& rows[0].username == "admin"@
    &&& bcrypt_verdict(Seq::<char>::empty(), rows[0].password_hash) == Some(true)
}

/// An answer of `verify_user` as contracts see it.
pub open spec fn seen(outcome: Result<Option<Account>, StoreError>) -> Result<
    Option<AccountView>,
    StoreError,
> {
    match outcome {
        Ok(Some(account)) => Ok(Some(account@)),
        Ok(None) => Ok(None),
        Err(e) => Err(e),
    }
}

/// An answer of `get_user_by_id` as contracts see it.
pub open spec fn found_seen(found: Option<Account>) -> Option<AccountView> {
    match found {
        Some(account) => Some(account@),
        None => None,
    }
}

/// The words for each refusal.
pub open spec fn error_text(error: StoreError) -> Seq<char> {
    match error {
        StoreError::IoFailure => "storage failure"@,
        StoreError::SchemaFailure => "stored accounts violate the schema"@,
        StoreError::DuplicateUsername => "username already exists"@,
        StoreError::HashFailure => "password hashing failed"@,
    }
}

/// In a table with distinct usernames, the row found under a name is the one
/// row that carries it.
pub proof fn lemma_user_named_unique(rows: Seq<UserRow>, i: int, username: Seq<char>)
    requires
        distinct_usernames(rows),
        0 <= i < rows.len(),
        rows[i].username == username,
    ensures
        user_named(rows, username) == Some(rows[i]),
{
    let j = choose|j: int| 0 <= j < rows.len() && (#[trigger] rows[j]).username == username;
    assert(0 <= j < rows.len() && rows[j].username == username);
    if j < i {
        assert(rows[j].username != rows[i].username);
    } else if i < j {
        assert(rows[i].username != rows[j].username);
    }
}

/// In a table with distinct identifiers, the row found under an identifier
/// is the one row that carries it.
pub proof fn lemma_user_with_id_unique(rows: Seq<UserRow>, i: int, id: i64)
    requires
        distinct_ids(rows),
        0 <= i < rows.len(),
        rows[i].id == id,
    ensures
        user_with_id(rows, id) == Some(rows[i]),
{
    let j = choose|j: int| 0 <= j < rows.len() && (#[trigger] rows[j]).id == id;
    assert(0 <= j < rows.len() && rows[j].id == id);
    if j < i {
        assert(rows[j].id != rows[i].id);
    } else if i < j {
        assert(rows[i].id != rows[j].id);
    }
}

/// What `verify_user` answers once the account is found and bcrypt has
/// spoken: the account on a match, nothing on a mismatch, `HashFailure`
/// where the check itself failed.
pub fn judged(account: Account, verdict: Option<bool>) -> (outcome: Result<Option<Account>, StoreError>)
    ensures
        seen(outcome) == judgement(account@, verdict),
        outcome matches Ok(Some(answer)) ==> answer == account,
{
    match verdict {
        Some(true) => Ok(Some(account)),
        Some(false) => Ok(None),
        None => Err(StoreError::HashFailure),
    }
}

impl StoreError {
    /// Why the store refused, in words.
    pub fn message(self) -> (text: String)
        ensures
            text@ == error_text(self),
    {
        match self {
            StoreError::IoFailure => "storage failure".to_owned(),
            StoreError::SchemaFailure => "stored accounts violate the schema".to_owned(),
            StoreError::DuplicateUsername => "username already exists".to_owned(),
            StoreError::HashFailure => "password hashing failed".to_owned(),
        }
    }
}

/// The accounts table.
pub struct Database {
    users: Vec<User>,
    last_id: i64,
}

impl View for Database {
    type V = Table;

    closed spec fn view(&self) -> Table {
        Table { rows: rows_of(self.users@), last_id: self.last_id as int }
    }
}

impl Database {
    /// The table is valid.
    pub open spec fn wf(&self) -> bool {
        table_valid(self@)
    }

    /// The table of a storage location that nothing has initialised yet: no
    /// account, not even the bootstrap one.
    pub fn empty() -> (db: Database)
        ensures
            db.wf(),
            db@.rows.len() == 0,
            db@.last_id == 0,
    {
        Database { users: Vec::new(), last_id: 0 }
    }

    /// Whether at least one account exists.
    pub fn has_users(&self) -> (any: bool)
        ensures
            any == (self@.rows.len() > 0),
    {
        self.users.len() > 0
    }

    /// The position of the account named `username`.
    fn position_of(&self, username: &str) -> (found: Option<usize>)
        ensures
            match found {
                Some(i) => i < self@.rows.len() && self@.rows[i as int].username == username@,
                None => !has_username(self@.rows, username@),
            },
    {
        let mut i: usize = 0;
        while i < self.users.len()
            invariant
                i <= self.users.len(),
                forall|k: int| 0 <= k < i ==> (#[trigger] self@.rows[k]).username != username@,
            decreases self.users.len() - i,
        {
            if same_text(self.users[i].username.as_str(), username) {
                return Some(i);
            }
            i += 1;
        }
        None
    }

    /// What a lookup tells of the account at position `i`.
    fn account_at(&self, i: usize) -> (account: Account)
        requires
            i < self@.rows.len(),
        ensures
            account@ == account_of(self@.rows[i as int]),
    {
        Account { id: self.users[i].id, username: self.users[i].username.clone() }
    }

    /// Looks an account up by name and checks the password against its hash.
    /// An unknown name and a wrong password give the same answer. The answer
    /// names the account and holds nothing of its hash.
    pub fn verify_user(&self, username: &str, password: &str) -> (outcome: Result<
        Option<Account>,
        StoreError,
    >)
        requires
            self.wf(),
        ensures
            seen(outcome) == verification(self@.rows, username@, password@),
    {
        match self.position_of(username) {
            None => Ok(None),
            Some(i) => {
                proof {
                    lemma_user_named_unique(self@.rows, i as int, username@);
                }
                let answer = verdict(password, self.users[i].password_hash.as_str());
                judged(self.account_at(i), answer)
            },
        }
    }

    /// Looks an account up by its identifier. The answer names the account
    /// and holds nothing of its hash.
    pub fn get_user_by_id(&self, user_id: i64) -> (found: Option<Account>)
        requires
            self.wf(),
        ensures
            found_seen(found) == account_with_id(self@.rows, user_id),
    {
        let mut i: usize = 0;
        while i < self.users.len()
            invariant
                i <= self.users.len(),
                self.wf(),
                forall|k: int| 0 <= k < i ==> (#[trigger] self@.rows[k]).id != user_id,
            decreases self.users.len() - i,
        {
            if self.users[i].id == user_id {
                proof {
                    lemma_user_with_id_unique(self@.rows, i as int, user_id);
                }
                return Some(self.account_at(i));
            }
            i += 1;
        }
        None
    }

    /// Adds an account whose password went through hashing, with `hashed` as
    /// the outcome of that (`None` where it failed). The name must be new and
    /// an identifier must be left; the account gets the identifier after the
    /// last one handed out, which no account in the table carries.
    pub fn insert_hashed(&mut self, username: &str, hashed: Option<String>) -> (outcome: Result<
        i64,
        StoreError,
    >)
        requires
            old(self).wf(),
        ensures
            final(self).wf(),
            outcome == insertion(old(self)@, username@, hashed is Some),
            match outcome {
                Ok(id) => {
                    &&& !has_id(old(self)@.rows, id)
                    &&& hashed matches Some(h) && final(self)@ == with_row(
                        old(self)@,
                        UserRow { id, username: username@, password_hash: h@ },
                    )
                },
                Err(_) => final(self)@ == old(self)@,
            },
    {
        if self.position_of(username).is_some() {
            return Err(StoreError::DuplicateUsername);
        }
        if self.last_id == i64::MAX {
            return Err(StoreError::IoFailure);
        }
        match hashed {
            None => Err(StoreError::HashFailure),
            Some(password_hash) => {
                let id: i64 = self.last_id + 1;
                let ghost before = self@.rows;
                let ghost row = UserRow { id, username: username@, password_hash: password_hash@ };
                proof {
                    lemma_fresh_id_is_new(self@);
                }
                self.users.push(User { id, username: username.to_owned(), password_hash });
                self.last_id = id;
                proof {
                    let after = self@.rows;
                    assert(after =~= before.push(row));
                    assert forall|i: int, j: int| 0 <= i < j < after.len() implies (#[trigger] after[i]).username
                        != (#[trigger] after[j]).username by {
                        if j == before.len() {
                            assert(before[i].username != username@);
                        } else {
                            assert(before[i].username != before[j].username);
                        }
                    }
                    assert forall|i: int, j: int| 0 <= i < j < after.len() implies (#[trigger] after[i]).id
                        != (#[trigger] after[j]).id by {
                        if j == before.len() {
                            assert(before[i].id <= id - 1);
                        } else {
                            assert(before[i].id != before[j].id);
                        }
                    }
                    assert forall|i: int| 0 <= i < after.len() implies (#[trigger] after[i]).id >= 1 && after[i].id
                        <= id by {
                        if i < before.len() {
                            assert(before[i].id >= 1);
                        }
                    }
                }
                Ok(id)
            },
        }
    }

    /// Creates an account: hashes the password and inserts the row. A name
    /// that is taken is refused before any hashing is done.
    pub fn create_user(&mut self, username: &str, password: &str) -> (outcome: Result<i64, StoreError>)
        requires
            old(self).wf(),
        ensures
            final(self).wf(),
            match outcome {
                Ok(id) => {
                    &&& outcome == insertion(old(self)@, username@, true)
                    &&& !has_id(old(self)@.rows, id)
                    &&& final(self)@.rows.len() == old(self)@.rows.len() + 1
                    &&& final(self)@ == with_row(old(self)@, final(self)@.rows.last())
                    &&& final(self)@.rows.last().id == id
                    &&& final(self)@.rows.last().username == username@
                    &&& bcrypt_verdict(password@, final(self)@.rows.last().password_hash) == Some(true)
                    &&& account_with_id(final(self)@.rows, id) == Some(
                        AccountView { id, username: username@ },
                    )
                },
                Err(_) => {
                    &&& outcome == insertion(old(self)@, username@, false)
                    &&& final(self)@ == old(self)@
                },
            },
    {
        if self.position_of(username).is_some() {
            return Err(StoreError::DuplicateUsername);
        }
        if self.last_id == i64::MAX {
            return Err(StoreError::IoFailure);
        }
        let outcome = self.insert_hashed(username, hashed(password));
        proof {
            if outcome is Ok {
                let rows = self@.rows;
                lemma_user_with_id_unique(rows, rows.len() - 1, outcome->Ok_0);
            }
        }
        outcome
    }

    /// The stored rows, hashes included, in the order of the table. This is
    /// the one way a hash leaves the store: it is there for the storage layer
    /// to write the table out, and for nothing else.
    pub fn users(&self) -> (copies: Vec<User>)
        ensures
            rows_of(copies@) == self@.rows,
    {
        let mut copies: Vec<User> = Vec::new();
        let mut i: usize = 0;
        while i < self.users.len()
            invariant
                i <= self.users.len(),
                copies@ == self.users@.subrange(0, i as int),
            decreases self.users.len() - i,
        {
            copies.push(
                User {
                    id: self.users[i].id,
                    username: self.users[i].username.clone(),
                    password_hash: self.users[i].password_hash.clone(),
                },
            );
            proof {
                assert(copies@ =~= self.users@.subrange(0, i + 1));
            }
            i += 1;
        }
        proof {
            assert(copies@ =~= self.users@);
        }
        copies
    }

    /// Opens the store on the accounts read from its storage location (none
    /// for a fresh location). A table that breaks the schema is refused. An
    /// empty table gets the bootstrap account `admin` with the empty password;
    /// a table that holds accounts is taken as it is.
    pub fn new(rows: Vec<User>) -> (opened: Result<Database, StoreError>)
        ensures
            match opened {
                Ok(db) => {
                    &&& db.wf()
                    &&& rows_valid(rows_of(rows@))
                    &&& db@.rows.len() > 0
                    &&& if rows@.len() == 0 {
                        bootstrapped(db@.rows) && db@.last_id == 1
                    } else {
                        db@.rows == rows_of(rows@) && db@.last_id == max_id(rows_of(rows@))
                    }
                },
                Err(StoreError::SchemaFailure) => !rows_valid(rows_of(rows@)),
                Err(StoreError::HashFailure) => rows@.len() == 0,
                Err(_) => false,
            },
    {
        let ghost table = rows_of(rows@);
        let mut last_id: i64 = 0;
        let mut i: usize = 0;
        while i < rows.len()
            invariant
                i <= rows.len(),
                table == rows_of(rows@),
                rows_valid(table.take(i as int)),
                last_id == max_id(table.take(i as int)),
                forall|k: int| 0 <= k < i ==> (#[trigger] table[k]).id <= last_id,
                last_id >= 0,
            decreases rows.len() - i,
        {
            if rows[i].id < 1 {
                proof {
                    assert(!(table[i as int].id >= 1));
                }
                return Err(StoreError::SchemaFailure);
            }
            let mut j: usize = 0;
            while j < i
                invariant
                    j <= i < rows.len(),
                    table == rows_of(rows@),
                    forall|k: int|
                        0 <= k < j ==> (#[trigger] table[k]).username != table[i as int].username
                            && table[k].id != table[i as int].id,
                decreases i - j,
            {
                if rows[j].id == rows[i].id {
                    proof {
                        assert(table[j as int].id == table[i as int].id);
                    }
                    return Err(StoreError::SchemaFailure);
                }
                if same_text(rows[j].username.as_str(), rows[i].username.as_str()) {
                    proof {
                        assert(table[j as int].username == table[i as int].username);
                    }
                    return Err(StoreError::SchemaFailure);
                }
                j += 1;
            }
            proof {
                let shorter = table.take(i as int);
                let longer = table.take(i + 1);
                assert(longer.drop_last() =~= shorter);
                assert(longer.last() == table[i as int]);
                assert forall|a: int, b: int| 0 <= a < b < longer.len() implies (#[trigger] longer[a]).username
                    != (#[trigger] longer[b]).username && longer[a].id != longer[b].id by {
                    if b == i {
                        assert(table[a].username != table[i as int].username);
                    } else {
                        assert(shorter[a].username != shorter[b].username);
                        assert(shorter[a].id != shorter[b].id);
                    }
                }
                assert forall|a: int| 0 <= a < longer.len() implies (#[trigger] longer[a]).id >= 1 by {
                    if a < i {
                        assert(shorter[a].id >= 1);
                    }
                }
            }
            if rows[i].id > last_id {
                last_id = rows[i].id;
            }
            i += 1;
        }
        proof {
            assert(table.take(rows.len() as int) =~= table);
        }
        if rows.len() == 0 {
            let mut db = Database { users: rows, last_id: 0 };
            proof {
                reveal_strlit("");
                assert(""@ =~= Seq::<char>::empty());
                assert(db@.rows =~= Seq::<UserRow>::empty());
                assert(!has_username(db@.rows, "admin"@));
            }
            match db.create_user("admin", "") {
                Ok(_) => Ok(db),
                Err(e) => Err(e),
            }
        } else {
            Ok(Database { users: rows, last_id })
        }
    }
}

/// In a valid table no account carries the identifier after the last one
/// handed out: the identifier of a new account is new.
pub proof fn lemma_fresh_id_is_new(table: Table)
    requires
        table_valid(table),
        table.last_id < i64::MAX,
    ensures
        !has_id(table.rows, (table.last_id + 1) as i64),
{
    assert forall|i: int| 0 <= i < table.rows.len() implies (#[trigger] table.rows[i]).id != table.last_id
        + 1 by {
        assert(table.rows[i].id <= table.last_id);
    }
}

/// An account that was added under a new identifier is the one that a lookup
/// by that identifier finds, and the lookup tells its name.
pub proof fn lemma_created_user_found_by_id(rows: Seq<UserRow>, row: UserRow)
    requires
        distinct_ids(rows),
        !has_id(rows, row.id),
    ensures
        account_with_id(rows.push(row), row.id) == Some(account_of(row)),
{
    let table = rows.push(row);
    assert forall|i: int, j: int| 0 <= i < j < table.len() implies (#[trigger] table[i]).id != (
    #[trigger] table[j]).id by {
        if j == rows.len() {
            assert(rows[i].id != row.id);
        } else {
            assert(rows[i].id != rows[j].id);
        }
    }
    assert(table[rows.len() as int] == row);
    lemma_user_with_id_unique(table, rows.len() as int, row.id);
}

/// Once an account named `row.username` is in the table, creating another
/// under that name is refused as a duplicate, whatever its password and
/// whether or not hashing it would succeed.
pub proof fn lemma_second_creation_is_duplicate(table: Table, row: UserRow, hashed: bool)
    ensures
        insertion(with_row(table, row), row.username, hashed) == Err::<i64, StoreError>(
            StoreError::DuplicateUsername,
        ),
{
    let rows = table.rows.push(row);
    assert(rows[table.rows.len() as int].username == row.username);
}

/// An account that was created with a password verifies under its name and
/// that password, to the account itself and so to its identifier.
pub proof fn lemma_created_user_verifies(rows: Seq<UserRow>, row: UserRow, password: Seq<char>)
    requires
        distinct_usernames(rows.push(row)),
        bcrypt_verdict(password, row.password_hash) == Some(true),
    ensures
        verification(rows.push(row), row.username, password) == Ok::<Option<AccountView>, StoreError>(
            Some(account_of(row)),
        ),
{
    let table = rows.push(row);
    assert(table[rows.len() as int] == row);
    lemma_user_named_unique(table, rows.len() as int, row.username);
}

/// A name that the table does not hold and a password that bcrypt rejects
/// get the same answer: no match, and no error.
pub proof fn lemma_unknown_and_wrong_look_alike(
    rows: Seq<UserRow>,
    known: Seq<char>,
    wrong: Seq<char>,
    unknown: Seq<char>,
    anything: Seq<char>,
)
    requires
        user_named(rows, known) matches Some(row) && bcrypt_verdict(wrong, row.password_hash) == Some(
            false,
        ),
        !has_username(rows, unknown),
    ensures
        verification(rows, known, wrong) == Ok::<Option<AccountView>, StoreError>(None),
        verification(rows, unknown, anything) == verification(rows, known, wrong),
{
}

/// A table that was bootstrapped holds exactly one account, named `admin`.
pub proof fn lemma_bootstrap_is_single_admin(rows: Seq<UserRow>)
    requires
        bootstrapped(rows),
    ensures
        rows.len() == 1,
        has_username(rows, "admin"@),
        forall|i: int| 0 <= i < rows.len() ==> (#[trigger] rows[i]).username == "admin"@,
{
    assert(rows[0].username == "admin"@);
}

} // verus!
