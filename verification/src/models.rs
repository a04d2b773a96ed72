//! What a caller hands over for one operation on a user's records.

use vstd::prelude::*;

verus! {

/// The arguments of one operation on a user's records.
#[derive(Debug, Clone, PartialEq)]
pub struct RecordOperationConfig {
    /// Whose records are meant.
    pub username: String,
    /// The secret that the records are sealed under.
    pub master_password: String,
    /// The domain of the record that is created, removed or changed.
    pub domain: String,
    /// The password to store for the domain.
    pub password: String,
    /// The data directory.
    pub path: String,
}

impl RecordOperationConfig {
    /// Collects the arguments of one operation.
    pub fn new(
        username: &str,
        master_password: &str,
        domain: &str,
        password: &str,
        path: &str,
    ) -> (r: RecordOperationConfig)
        ensures
            r.username@ == username@,
            r.master_password@ == master_password@,
            r.domain@ == domain@,
            r.password@ == password@,
            r.path@ == path@,
    {
        RecordOperationConfig {
            username: username.to_owned(),
            master_password: master_password.to_owned(),
            domain: domain.to_owned(),
            password: password.to_owned(),
            path: path.to_owned(),
        }
    }
}

/// What is needed to register a user: the name, the master password, the
/// first record and the data directory.
#[derive(Debug, Clone, PartialEq)]
pub struct CreateUserConfig {
    pub username: String,
    pub master_pwd: String,
    pub domain: String,
    pub pwd: String,
    pub path: String,
}

impl CreateUserConfig {
    /// Collects what is needed to register a user.
    pub fn new(username: &str, master_pwd: &str, domain: &str, pwd: &str, path: String) -> (r:
        CreateUserConfig)
        ensures
            r.username@ == username@,
            r.master_pwd@ == master_pwd@,
            r.domain@ == domain@,
            r.pwd@ == pwd@,
            r.path == path,
    {
        CreateUserConfig {
            username: username.to_owned(),
            master_pwd: master_pwd.to_owned(),
            domain: domain.to_owned(),
            pwd: pwd.to_owned(),
            path,
        }
    }

    /// The same arguments as one operation on the user's records.
    pub fn operation(&self) -> (r: RecordOperationConfig)
        ensures
            r.username@ == self.username@,
            r.master_password@ == self.master_pwd@,
            r.domain@ == self.domain@,
            r.password@ == self.pwd@,
            r.path@ == self.path@,
    {
        RecordOperationConfig::new(
            self.username.as_str(),
            self.master_pwd.as_str(),
            self.domain.as_str(),
            self.pwd.as_str(),
            self.path.as_str(),
        )
    }
}

/// What is needed to add a record, borrowed from the caller.
#[derive(Debug, Clone, PartialEq)]
pub struct AddRecordConfig<'a> {
    pub username: &'a str,
    pub master_pwd: &'a str,
    pub domain: &'a str,
    pub pwd: &'a str,
    pub path: String,
}

impl<'a> AddRecordConfig<'a> {
    /// Collects what is needed to add a record.
    pub fn new(
        username: &'a str,
        master_pwd: &'a str,
        domain: &'a str,
        pwd: &'a str,
        path: String,
    ) -> (r: AddRecordConfig<'a>)
        ensures
            r.username@ == username@,
            r.master_pwd@ == master_pwd@,
            r.domain@ == domain@,
            r.pwd@ == pwd@,
            r.path == path,
    {
        AddRecordConfig { username, master_pwd, domain, pwd, path }
    }

    /// The same arguments as one operation on the user's records.
    pub fn operation(&self) -> (r: RecordOperationConfig)
        ensures
            r.username@ == self.username@,
            r.master_password@ == self.master_pwd@,
            r.domain@ == self.domain@,
            r.password@ == self.pwd@,
            r.path@ == self.path@,
    {
        RecordOperationConfig::new(
            self.username,
            self.master_pwd,
            self.domain,
            self.pwd,
            self.path.as_str(),
        )
    }
}

/// What is needed to remove a record, borrowed from the caller.
#[derive(Debug, Clone, PartialEq)]
pub struct RemoveRecordConfig<'a> {
    pub username: &'a str,
    pub master_pwd: &'a str,
    pub domain: &'a str,
    pub path: String,
}

impl<'a> RemoveRecordConfig<'a> {
    /// Collects what is needed to remove a record.
    pub fn new(username: &'a str, master_pwd: &'a str, domain: &'a str, path: String) -> (r:
        RemoveRecordConfig<'a>)
        ensures
            r.username@ == username@,
            r.master_pwd@ == master_pwd@,
            r.domain@ == domain@,
            r.path == path,
    {
        RemoveRecordConfig { username, master_pwd, domain, path }
    }

    /// The same arguments as one operation on the user's records; a
    /// removal names no password.
    pub fn operation(&self) -> (r: RecordOperationConfig)
        ensures
            r.username@ == self.username@,
            r.master_password@ == self.master_pwd@,
            r.domain@ == self.domain@,
            r.password@.len() == 0,
            r.path@ == self.path@,
    {
        let none: String = String::new();
        RecordOperationConfig::new(
            self.username,
            self.master_pwd,
            self.domain,
            none.as_str(),
            self.path.as_str(),
        )
    }
}

/// What is needed to change the password of a record, borrowed from the
/// caller.
#[derive(Debug, Clone, PartialEq)]
pub struct ModifyRecordConfig<'a> {
    pub username: &'a str,
    pub master_pwd: &'a str,
    pub domain: &'a str,
    pub pwd: &'a str,
    pub path: String,
}

impl<'a> ModifyRecordConfig<'a> {
    /// Collects what is needed to change the password of a record.
    pub fn new(
        username: &'a str,
        master_pwd: &'a str,
        domain: &'a str,
        pwd: &'a str,
        path: String,
    ) -> (r: ModifyRecordConfig<'a>)
        ensures
            r.username@ == username@,
            r.master_pwd@ == master_pwd@,
            r.domain@ == domain@,
            r.pwd@ == pwd@,
            r.path == path,
    {
        ModifyRecordConfig { username, master_pwd, domain, pwd, path }
    }

    /// The same arguments as one operation on the user's records.
    pub fn operation(&self) -> (r: RecordOperationConfig)
        ensures
            r.username@ == self.username@,
            r.master_password@ == self.master_pwd@,
            r.domain@ == self.domain@,
            r.password@ == self.pwd@,
            r.path@ == self.path@,
    {
        RecordOperationConfig::new(
            self.username,
            self.master_pwd,
            self.domain,
            self.pwd,
            self.path.as_str(),
        )
    }
}

} // verus!
