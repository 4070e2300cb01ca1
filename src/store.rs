use crate::files::{chars_of, join_path, joined_path, string_of};
use crate::policy::{Group, PolicyStatement, User};
use vstd::prelude::*;

verus! {

/// Why an operation of the principal store failed.
#[derive(PartialEq, Eq, Structural, Clone, Copy, Debug)]
pub enum StoreError {
    /// Reading, writing or opening a record failed.
    Io,
    /// The record's lock could not be taken.
    Lock,
    /// The record could not be decoded.
    Decode,
    /// A record of that name exists already.
    AlreadyExists,
    /// No record of that name exists.
    NotFound,
    /// The name would place its record outside the store's directory.
    InvalidName,
    /// The password could not be hashed.
    Hash,
    /// The login name and password were not accepted together.
    PasswordMismatch,
}

/// A user as the store keeps it: the public fields and the password hash,
/// which is never handed out with a `User`.
#[derive(Clone, Debug)]
pub struct StoredUser {
    pub login_name: String,
    pub full_name: Option<String>,
    pub groups: Vec<String>,
    pub policy_statements: Vec<PolicyStatement>,
    pub password_hash: Option<String>,
}

impl StoredUser {
    /// The public view of the record, without its password hash.
    pub fn into_user(self) -> (u: User)
        ensures
            u.login_name == self.login_name,
            u.full_name == self.full_name,
            u.groups == self.groups,
            u.policy_statements == self.policy_statements,
    {
        User {
            login_name: self.login_name,
            full_name: self.full_name,
            groups: self.groups,
            policy_statements: self.policy_statements,
        }
    }

    /// The record of `user`, with `password_hash`.
    pub fn from_user(user: User, password_hash: Option<String>) -> (r: StoredUser)
        ensures
            r.login_name == user.login_name,
            r.full_name == user.full_name,
            r.groups == user.groups,
            r.policy_statements == user.policy_statements,
            r.password_hash == password_hash,
    {
        StoredUser {
            login_name: user.login_name,
            full_name: user.full_name,
            groups: user.groups,
            policy_statements: user.policy_statements,
            password_hash,
        }
    }
}

/// How a record file is opened.
#[derive(PartialEq, Eq, Structural, Clone, Copy, Debug)]
pub enum OpenMode {
    /// To read an existing record.
    Read,
    /// To overwrite an existing record.
    Update,
    /// To write a record that must not exist yet.
    Create,
}

/// The advisory lock held on a record file for the length of an operation.
#[derive(PartialEq, Eq, Structural, Clone, Copy, Debug)]
pub enum LockKind {
    Shared,
    Exclusive,
}

/// The options a record file is opened with.
#[derive(PartialEq, Eq, Structural, Clone, Copy, Debug)]
pub struct OpenFlags {
    pub read: bool,
    pub write: bool,
    /// Fail if the file exists; create it otherwise.
    pub create_new: bool,
    /// Empty the file on opening.
    pub truncate: bool,
}

pub open spec fn flags_for(mode: OpenMode) -> OpenFlags {
    match mode {
        OpenMode::Read => OpenFlags { read: true, write: false, create_new: false, truncate: false },
        OpenMode::Update => OpenFlags { read: false, write: true, create_new: false, truncate: true },
        OpenMode::Create => OpenFlags { read: false, write: true, create_new: true, truncate: false },
    }
}

pub open spec fn lock_for(mode: OpenMode) -> LockKind {
    match mode {
        OpenMode::Read => LockKind::Shared,
        _ => LockKind::Exclusive,
    }
}

/// The file of one record, and how to open and lock it.
#[derive(Clone, Debug)]
pub struct RecordAccess {
    pub path: String,
    pub flags: OpenFlags,
    pub lock: LockKind,
}

pub open spec fn record_file_name(name: Seq<char>) -> Seq<char> {
    name + seq!['.', 'j', 's', 'o', 'n']
}

/// A name whose record file lies directly in the store's directory.
pub open spec fn is_record_name(name: Seq<char>) -> bool {
    !name.contains('/')
}

/// Plans the access to the record `name` in directory `dir`: its file is
/// the name with the extension `.json`; writes lock exclusively, reads
/// shared. A name that would lead out of the directory is refused.
pub fn record_access(dir: &str, name: &str, mode: OpenMode) -> (r: Result<RecordAccess, StoreError>)
    ensures
        match r {
            Ok(a) => is_record_name(name@) && a.path@ == joined_path(dir@, record_file_name(name@))
                && a.flags == flags_for(mode) && a.lock == lock_for(mode),
            Err(e) => !is_record_name(name@) && e == StoreError::InvalidName,
        },
{
    let mut cs = chars_of(name);
    let mut i: usize = 0;
    while i < cs.len()
        invariant
            cs@ == name@,
            i <= cs@.len(),
            forall|j: int| 0 <= j < i ==> cs@[j] != '/',
        decreases cs@.len() - i,
    {
        if cs[i] == '/' {
            assert(name@.contains(cs@[i as int]));
            return Err(StoreError::InvalidName);
        }
        i += 1;
    }
    cs.push('.');
    cs.push('j');
    cs.push('s');
    cs.push('o');
    cs.push('n');
    assert(cs@ =~= record_file_name(name@));
    let file_name = string_of(&cs);
    let path = join_path(dir, file_name.as_str());
    let flags = match mode {
        OpenMode::Read => OpenFlags { read: true, write: false, create_new: false, truncate: false },
        OpenMode::Update => OpenFlags { read: false, write: true, create_new: false, truncate: true },
        OpenMode::Create => OpenFlags { read: false, write: true, create_new: true, truncate: false },
    };
    let lock = match mode {
        OpenMode::Read => LockKind::Shared,
        _ => LockKind::Exclusive,
    };
    Ok(RecordAccess { path, flags, lock })
}

/// A name listed in a store directory, and whether it is a regular file.
#[derive(Clone, Debug)]
pub struct ListedFile {
    pub file_name: String,
    pub is_file: bool,
}

pub open spec fn is_record_file(f: ListedFile) -> bool {
    f.is_file && f.file_name@.len() >= 5 && f.file_name@.skip(f.file_name@.len() - 5) == seq!['.', 'j', 's', 'o', 'n']
}

/// The record names of the listed files that are records, in their order.
pub open spec fn record_names_of(files: Seq<ListedFile>) -> Seq<Seq<char>>
    decreases files.len(),
{
    if files.len() == 0 {
        Seq::empty()
    } else {
        let rest = record_names_of(files.drop_last());
        let f = files.last();
        if is_record_file(f) {
            rest.push(f.file_name@.take(f.file_name@.len() - 5))
        } else {
            rest
        }
    }
}

fn ends_with_json(cs: &Vec<char>) -> (r: bool)
    ensures
        r == (cs@.len() >= 5 && cs@.skip(cs@.len() - 5) == seq!['.', 'j', 's', 'o', 'n']),
{
    let n = cs.len();
    if n < 5 {
        return false;
    }
    let r = cs[n - 5] == '.' && cs[n - 4] == 'j' && cs[n - 3] == 's' && cs[n - 2] == 'o' && cs[n - 1] == 'n';
    if r {
        assert(cs@.skip(n - 5) =~= seq!['.', 'j', 's', 'o', 'n']);
    } else {
        let ghost t = cs@.skip(n - 5);
        assert(t[0] == cs@[n - 5] && t[1] == cs@[n - 4] && t[2] == cs@[n - 3] && t[3] == cs@[n - 2] && t[4] == cs@[n - 1]);
        assert(seq!['.', 'j', 's', 'o', 'n'][0] == '.');
        assert(seq!['.', 'j', 's', 'o', 'n'][1] == 'j');
        assert(seq!['.', 'j', 's', 'o', 'n'][2] == 's');
        assert(seq!['.', 'j', 's', 'o', 'n'][3] == 'o');
        assert(seq!['.', 'j', 's', 'o', 'n'][4] == 'n');
    }
    r
}

/// The names of the records among the listed files: the regular files named
/// with the extension `.json`, with the extension taken off.
pub fn record_names(files: &Vec<ListedFile>) -> (r: Vec<String>)
    ensures
        r@.map_values(|s: String| s@) == record_names_of(files@),
{
    let mut out: Vec<String> = Vec::new();
    let mut i: usize = 0;
    assert(files@.take(0) =~= Seq::<ListedFile>::empty());
    assert(out@.map_values(|s: String| s@) =~= Seq::<Seq<char>>::empty());
    while i < files.len()
        invariant
            i <= files@.len(),
            out@.map_values(|s: String| s@) == record_names_of(files@.take(i as int)),
        decreases files@.len() - i,
    {
        let f = &files[i];
        assert(files@.take(i + 1).drop_last() =~= files@.take(i as int));
        assert(files@.take(i + 1).last() == *f);
        if f.is_file {
            let mut cs = chars_of(f.file_name.as_str());
            if ends_with_json(&cs) {
                let n = cs.len();
                cs.truncate(n - 5);
                assert(cs@ =~= f.file_name@.take(f.file_name@.len() - 5));
                let ghost before = out@;
                out.push(string_of(&cs));
                assert(out@.map_values(|s: String| s@) =~= before.map_values(|s: String| s@).push(cs@));
            }
        }
        i += 1;
    }
    assert(files@.take(i as int) =~= files@);
    out
}

/// What the filesystem reported when a record file could not be opened.
#[derive(PartialEq, Eq, Structural, Clone, Copy, Debug)]
pub enum OpenFailure {
    AlreadyExists,
    NotFound,
    Other,
}

impl StoreError {
    /// The store's error for a record file that could not be opened.
    pub fn from_open_failure(f: OpenFailure) -> (e: StoreError)
        ensures
            e == match f {
                OpenFailure::AlreadyExists => StoreError::AlreadyExists,
                OpenFailure::NotFound => StoreError::NotFound,
                OpenFailure::Other => StoreError::Io,
            },
    {
        match f {
            OpenFailure::AlreadyExists => StoreError::AlreadyExists,
            OpenFailure::NotFound => StoreError::NotFound,
            OpenFailure::Other => StoreError::Io,
        }
    }
}

/// How opening a file with `flags` fails, as the filesystem defines it,
/// given whether the file exists: an exclusive create fails on an existing
/// file, and any other open that does not create fails on a missing one.
pub open spec fn open_failure(flags: OpenFlags, exists: bool) -> Option<OpenFailure> {
    if flags.create_new && exists {
        Some(OpenFailure::AlreadyExists)
    } else if !flags.create_new && !exists {
        Some(OpenFailure::NotFound)
    } else {
        None
    }
}

/// The record kept under one name, and the outcome, after writing `rec`
/// through a file opened with `flags`, starting from `current`. A write
/// that cannot open the file leaves the record as it was.
pub open spec fn after_write(current: Option<StoredUser>, flags: OpenFlags, rec: StoredUser) -> (Option<StoredUser>, Result<(), StoreError>) {
    match open_failure(flags, current is Some) {
        Some(OpenFailure::AlreadyExists) => (current, Err(StoreError::AlreadyExists)),
        Some(OpenFailure::NotFound) => (current, Err(StoreError::NotFound)),
        Some(OpenFailure::Other) => (current, Err(StoreError::Io)),
        None => (Some(rec), Ok(())),
    }
}

#[verifier::external_type_specification]
#[verifier::external_body]
pub struct ExPwhashError(pwhash::error::Error);

/// Every character lies between `' '` and `'~'`.
pub open spec fn is_printable_ascii(s: Seq<char>) -> bool {
    forall|i: int| 0 <= i < s.len() ==> ' ' <= #[trigger] s[i] && s[i] <= '~'
}

/// Whether every character of `s` is printable ASCII.
pub fn printable_ascii(s: &str) -> (r: bool)
    ensures
        r == is_printable_ascii(s@),
{
    let cs = chars_of(s);
    let mut i: usize = 0;
    while i < cs.len()
        invariant
            cs@ == s@,
            i <= cs@.len(),
            forall|j: int| 0 <= j < i ==> ' ' <= #[trigger] cs@[j] && cs@[j] <= '~',
        decreases cs@.len() - i,
    {
        if cs[i] < ' ' || cs[i] > '~' {
            return false;
        }
        i += 1;
    }
    true
}

/// Relies on `pwhash::sha512_crypt::hash`: a SHA-512 crypt hash of the
/// password under a fresh random salt and the default rounds. The hash is
/// `$6$`, a salt drawn from `./A-Za-z0-9`, `$` and a checksum in the crypt
/// alphabet, so it is printable ASCII, and `verify` parses that salt back
/// and accepts the password. Nothing else is said of it: its salt is random.
/// (Where the system's random source fails, the generator beneath panics.)
#[verifier::external_body]
fn sha512_crypt_hash(password: &str) -> (r: Result<String, pwhash::error::Error>)
    ensures
        r matches Ok(h) ==> sha512_crypt_verifies(password@, h@) && is_printable_ascii(h@),
{
    pwhash::sha512_crypt::hash(password)
}

/// Whether `password` hashes to `hash` under the salt and rounds that `hash`
/// holds.
pub uninterp spec fn sha512_crypt_verifies(password: Seq<char>, hash: Seq<char>) -> bool;

/// Relies on `pwhash::sha512_crypt::verify`: whether hashing the password
/// with the setup parsed out of `hash` gives `hash` again; the answer
/// depends on the two strings alone. A hash outside printable ASCII is not
/// passed on: the salt decoder indexes past its table on such characters.
#[verifier::external_body]
fn sha512_crypt_verify(password: &str, hash: &str) -> (r: bool)
    requires
        is_printable_ascii(hash@),
    ensures
        r == sha512_crypt_verifies(password@, hash@),
{
    pwhash::sha512_crypt::verify(password, hash)
}

/// The hash to store for a new password: none clears the password and so
/// disables login; a password is hashed with a salted one-way hash and never
/// kept in clear. The hash of a password accepts that password.
pub fn hash_password(password: Option<&str>) -> (r: Result<Option<String>, StoreError>)
    ensures
        password is None ==> r == Ok::<Option<String>, StoreError>(None),
        password matches Some(pw) ==> match r {
            Ok(h) => h matches Some(hh) && sha512_crypt_verifies(pw@, hh@) && is_printable_ascii(hh@),
            Err(e) => e == StoreError::Hash,
        },
{
    match password {
        None => Ok(None),
        Some(pw) => match sha512_crypt_hash(pw) {
            Ok(h) => Ok(Some(h)),
            Err(_) => Err(StoreError::Hash),
        },
    }
}

/// The record has a well-formed password hash that `password` matches.
pub open spec fn accepts(rec: StoredUser, password: Seq<char>) -> bool {
    rec.password_hash matches Some(h) && is_printable_ascii(h@) && sha512_crypt_verifies(password, h@)
}

/// The user of `record` when `password` matches its hash. Every failure,
/// a missing record, no password set, a malformed hash or a wrong password,
/// looks the same to the caller.
pub fn authenticate(record: Result<StoredUser, StoreError>, password: &str) -> (r: Result<User, StoreError>)
    ensures
        match r {
            Ok(u) => match record {
                Ok(rec) => accepts(rec, password@)
                    && u.login_name == rec.login_name && u.full_name == rec.full_name
                    && u.groups == rec.groups && u.policy_statements == rec.policy_statements,
                Err(_) => false,
            },
            Err(e) => e == StoreError::PasswordMismatch && !(record matches Ok(rec) && accepts(rec, password@)),
        },
{
    let rec = match record {
        Ok(rec) => rec,
        Err(_) => return Err(StoreError::PasswordMismatch),
    };
    let ok = match &rec.password_hash {
        None => false,
        Some(h) => printable_ascii(h.as_str()) && sha512_crypt_verify(password, h.as_str()),
    };
    if !ok {
        return Err(StoreError::PasswordMismatch);
    }
    Ok(rec.into_user())
}

/// Login is disabled on a record without a password hash: no password is
/// accepted, so authenticating against it fails whatever password is given.
pub proof fn lemma_no_hash_no_login(rec: StoredUser)
    requires
        rec.password_hash is None,
    ensures
        forall|password: Seq<char>| !#[trigger] accepts(rec, password),
{
}

/// A password just set is accepted: a record whose hash came from
/// `hash_password` for `password` accepts `password`, whatever else it
/// holds.
pub proof fn lemma_set_password_accepts(rec: StoredUser, password: Seq<char>, hash: String)
    requires
        sha512_crypt_verifies(password, hash@),
        is_printable_ascii(hash@),
        rec.password_hash == Some(hash),
    ensures
        accepts(rec, password),
{
}

/// Where a file-backed store keeps its records: one file per user in its
/// users directory, one per group in its groups directory.
#[derive(Clone, Debug)]
pub struct FilePolicyStore {
    user_dir: String,
    group_dir: String,
}

/// A record to write, and how to reach its file.
#[derive(Clone, Debug)]
pub struct UserWrite {
    pub access: RecordAccess,
    pub record: StoredUser,
}

impl FilePolicyStore {
    pub closed spec fn user_dir_spec(&self) -> Seq<char> {
        self.user_dir@
    }

    pub closed spec fn group_dir_spec(&self) -> Seq<char> {
        self.group_dir@
    }

    /// The store whose directories lie in `base_dir`.
    pub fn new(base_dir: &str) -> (r: FilePolicyStore)
        ensures
            r.user_dir_spec() == joined_path(base_dir@, "users"@),
            r.group_dir_spec() == joined_path(base_dir@, "groups"@),
    {
        FilePolicyStore { user_dir: join_path(base_dir, "users"), group_dir: join_path(base_dir, "groups") }
    }

    pub fn user_dir(&self) -> (r: &str)
        ensures
            r@ == self.user_dir_spec(),
    {
        self.user_dir.as_str()
    }

    pub fn group_dir(&self) -> (r: &str)
        ensures
            r@ == self.group_dir_spec(),
    {
        self.group_dir.as_str()
    }

    /// The access to the record of user `name`.
    pub fn user_record(&self, name: &str, mode: OpenMode) -> (r: Result<RecordAccess, StoreError>)
        ensures
            match r {
                Ok(a) => is_record_name(name@) && a.path@ == joined_path(self.user_dir_spec(), record_file_name(name@))
                    && a.flags == flags_for(mode) && a.lock == lock_for(mode),
                Err(e) => !is_record_name(name@) && e == StoreError::InvalidName,
            },
    {
        record_access(self.user_dir.as_str(), name, mode)
    }

    /// The access to the record of group `name`.
    pub fn group_record(&self, name: &str, mode: OpenMode) -> (r: Result<RecordAccess, StoreError>)
        ensures
            match r {
                Ok(a) => is_record_name(name@) && a.path@ == joined_path(self.group_dir_spec(), record_file_name(name@))
                    && a.flags == flags_for(mode) && a.lock == lock_for(mode),
                Err(e) => !is_record_name(name@) && e == StoreError::InvalidName,
            },
    {
        record_access(self.group_dir.as_str(), name, mode)
    }

    /// The write of `user` with `password_hash`: to a new record where
    /// `create_new`, else over the existing one.
    pub fn store_user(&self, create_new: bool, user: User, password_hash: Option<String>) -> (r: Result<UserWrite, StoreError>)
        ensures
            match r {
                Ok(w) => is_record_name(user.login_name@)
                    && w.access.path@ == joined_path(self.user_dir_spec(), record_file_name(user.login_name@))
                    && w.access.flags == flags_for(if create_new { OpenMode::Create } else { OpenMode::Update })
                    && w.access.lock == LockKind::Exclusive
                    && w.record.login_name == user.login_name && w.record.full_name == user.full_name
                    && w.record.groups == user.groups && w.record.policy_statements == user.policy_statements
                    && w.record.password_hash == password_hash,
                Err(e) => !is_record_name(user.login_name@) && e == StoreError::InvalidName,
            },
    {
        let mode = if create_new {
            OpenMode::Create
        } else {
            OpenMode::Update
        };
        let access = self.user_record(user.login_name.as_str(), mode)?;
        Ok(UserWrite { access, record: StoredUser::from_user(user, password_hash) })
    }

    /// The write that creates the record of a new user, without a password.
    /// It fails, and changes nothing, where the record exists already.
    pub fn create_user(&self, user: User) -> (r: Result<UserWrite, StoreError>)
        ensures
            match r {
                Ok(w) => is_record_name(user.login_name@)
                    && w.access.path@ == joined_path(self.user_dir_spec(), record_file_name(user.login_name@))
                    && w.access.flags == flags_for(OpenMode::Create) && w.access.lock == LockKind::Exclusive
                    && w.record.login_name == user.login_name && w.record.full_name == user.full_name
                    && w.record.groups == user.groups && w.record.policy_statements == user.policy_statements
                    && w.record.password_hash is None,
                Err(e) => !is_record_name(user.login_name@) && e == StoreError::InvalidName,
            },
    {
        self.store_user(true, user, None)
    }

    /// The write that replaces the public fields of the record `current`
    /// with those of `user`, keeping its password hash.
    pub fn update_user(&self, user: User, current: StoredUser) -> (r: Result<UserWrite, StoreError>)
        ensures
            match r {
                Ok(w) => is_record_name(user.login_name@)
                    && w.access.path@ == joined_path(self.user_dir_spec(), record_file_name(user.login_name@))
                    && w.access.flags == flags_for(OpenMode::Update) && w.access.lock == LockKind::Exclusive
                    && w.record.login_name == user.login_name && w.record.full_name == user.full_name
                    && w.record.groups == user.groups && w.record.policy_statements == user.policy_statements
                    && w.record.password_hash == current.password_hash,
                Err(e) => !is_record_name(user.login_name@) && e == StoreError::InvalidName,
            },
    {
        self.store_user(false, user, current.password_hash)
    }

    /// The write that sets the password hash of the record `current` to
    /// `password_hash`, keeping everything else.
    pub fn set_user_password(&self, current: StoredUser, password_hash: Option<String>) -> (r: Result<UserWrite, StoreError>)
        ensures
            match r {
                Ok(w) => is_record_name(current.login_name@)
                    && w.access.path@ == joined_path(self.user_dir_spec(), record_file_name(current.login_name@))
                    && w.access.flags == flags_for(OpenMode::Update) && w.access.lock == LockKind::Exclusive
                    && w.record.login_name == current.login_name && w.record.full_name == current.full_name
                    && w.record.groups == current.groups && w.record.policy_statements == current.policy_statements
                    && w.record.password_hash == password_hash,
                Err(e) => !is_record_name(current.login_name@) && e == StoreError::InvalidName,
            },
    {
        let user = current.into_user();
        self.store_user(false, user, password_hash)
    }

    /// The write of `group`: to a new record where `create_new`, else over
    /// the existing one.
    pub fn store_group(&self, create_new: bool, group: Group) -> (r: Result<GroupWrite, StoreError>)
        ensures
            match r {
                Ok(w) => is_record_name(group.name@)
                    && w.access.path@ == joined_path(self.group_dir_spec(), record_file_name(group.name@))
                    && w.access.flags == flags_for(if create_new { OpenMode::Create } else { OpenMode::Update })
                    && w.access.lock == LockKind::Exclusive
                    && w.record == group,
                Err(e) => !is_record_name(group.name@) && e == StoreError::InvalidName,
            },
    {
        let mode = if create_new {
            OpenMode::Create
        } else {
            OpenMode::Update
        };
        let access = self.group_record(group.name.as_str(), mode)?;
        Ok(GroupWrite { access, record: group })
    }
}

/// A group record to write, and how to reach its file.
#[derive(Clone, Debug)]
pub struct GroupWrite {
    pub access: RecordAccess,
    pub record: Group,
}

/// Creating a user twice: the first create writes its record; the second,
/// under the same login name, fails with `AlreadyExists` and leaves the
/// first record as it was.
pub proof fn lemma_create_twice(first: StoredUser, second: StoredUser)
    requires
        first.login_name@ == second.login_name@,
    ensures
        after_write(None, flags_for(OpenMode::Create), first) == (Some(first), Ok::<(), StoreError>(())),
        after_write(Some(first), flags_for(OpenMode::Create), second) == (Some(first), Err::<(), StoreError>(StoreError::AlreadyExists)),
{
}

/// The operations of a principal store, whatever keeps its records.
pub trait PolicyStore {
    fn list_users(&self) -> Result<Vec<User>, StoreError>;

    fn user_named(&self, name: &str) -> Result<User, StoreError>;

    fn create_user(&self, user: &User) -> Result<(), StoreError>;

    fn update_user(&self, user: &User) -> Result<(), StoreError>;

    fn set_user_password(&self, login_name: &str, password: Option<&str>) -> Result<(), StoreError>;

    fn authenticate_user(&self, login_name: &str, password: &str) -> Result<User, StoreError>;

    fn list_groups(&self) -> Result<Vec<Group>, StoreError>;

    fn group_named(&self, name: &str) -> Option<Group>;

    fn create_group(&self, group: &Group) -> Result<(), StoreError>;

    fn update_group(&self, group: &Group) -> Result<(), StoreError>;
}

} // verus!
