use vstd::prelude::*;

verus! {

/// One row of the `accounts` table, as read from the database.
#[derive(Clone, Debug, PartialEq, Eq)]
pub struct AccountRow {
    pub id: i64,
    pub name: String,
    pub email: String,
    pub password: String,
    pub imap_host: String,
    pub imap_port: i64,
    pub smtp_host: String,
    pub smtp_port: i64,
}

/// What is needed to reach one account's mail servers: a projection of one
/// `accounts` row, built fresh for each cycle.
#[derive(Clone, Debug, PartialEq, Eq)]
pub struct ConnectionDetails {
    pub account_id: i64,
    pub name: String,
    pub email: String,
    pub password: String,
    pub imap_server: String,
    pub imap_port: i64,
    pub smtp_server: String,
    pub smtp_port: i64,
}

/// Why an account could not be loaded.
#[derive(PartialEq, Eq, Structural, Clone, Copy, Debug)]
pub enum LoadError {
    /// No row of `accounts` carries the requested identifier.
    AccountNotFound { account_id: i64 },
}

/// The connection details hold exactly the fields of the row.
pub open spec fn details_match_row(d: ConnectionDetails, row: AccountRow) -> bool {
    &&& d.account_id == row.id
    &&& d.name@ == row.name@
    &&& d.email@ == row.email@
    &&& d.password@ == row.password@
    &&& d.imap_server@ == row.imap_host@
    &&& d.imap_port == row.imap_port
    &&& d.smtp_server@ == row.smtp_host@
    &&& d.smtp_port == row.smtp_port
}

/// Whether some row carries the identifier.
pub open spec fn has_account(rows: Seq<AccountRow>, account_id: i64) -> bool {
    exists|i: int| 0 <= i < rows.len() && #[trigger] rows[i].id == account_id
}

/// The position of the first row that carries the identifier.
pub open spec fn is_first_with_id(rows: Seq<AccountRow>, account_id: i64, i: int) -> bool {
    &&& 0 <= i < rows.len()
    &&& rows[i].id == account_id
    &&& forall|j: int| 0 <= j < i ==> #[trigger] rows[j].id != account_id
}

impl AccountRow {
    /// The connection details that this row describes.
    pub fn to_details(&self) -> (d: ConnectionDetails)
        ensures
            details_match_row(d, *self),
    {
        ConnectionDetails {
            account_id: self.id,
            name: self.name.clone(),
            email: self.email.clone(),
            password: self.password.clone(),
            imap_server: self.imap_host.clone(),
            imap_port: self.imap_port,
            smtp_server: self.smtp_host.clone(),
            smtp_port: self.smtp_port,
        }
    }
}

/// Loads the account with the given identifier from the rows that the
/// `accounts` table returned: the first row that carries it, field for field.
/// Where no row carries it, the account does not exist and no details are made up.
pub fn connection_details_for(rows: Vec<AccountRow>, account_id: i64) -> (r: Result<
    ConnectionDetails,
    LoadError,
>)
    ensures
        r is Ok <==> has_account(rows@, account_id),
        r matches Ok(d) ==> exists|i: int|
            is_first_with_id(rows@, account_id, i) && details_match_row(d, #[trigger] rows@[i]),
        r matches Err(e) ==> e == (LoadError::AccountNotFound { account_id }),
{
    let mut i: usize = 0;
    while i < rows.len()
        invariant
            0 <= i <= rows.len(),
            forall|j: int| 0 <= j < i ==> #[trigger] rows@[j].id != account_id,
        decreases rows.len() - i,
    {
        if rows[i].id == account_id {
            let d = rows[i].to_details();
            assert(is_first_with_id(rows@, account_id, i as int));
            assert(details_match_row(d, rows@[i as int]));
            return Ok(d);
        }
        i = i + 1;
    }
    Err(LoadError::AccountNotFound { account_id })
}

} // verus!
