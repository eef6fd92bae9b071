//! The user directory: who may connect, with which certificate and which
//! permissions.

use crate::errors::{UserError, UserFailure};
use crate::json::{first_member, json_document, DocumentError, Json, Problem};
use crate::login::{Permissions, UserId, GUEST_ID, ROOT_ID};
use crate::text::{decimal_text, digit_char};
use std::collections::HashMap;
use vstd::prelude::*;
use vstd::std_specs::hash::group_hash_axioms;
use vstd::string::StringSliceAdditionalSpecFns;

verus! {

broadcast use group_hash_axioms;

/// The permissions of owner, group and others in a file mode, each a
/// number from 0 to 7.
pub open spec fn octets_of(mode: u32) -> Seq<u8> {
    seq![((mode >> 6) & 0x7) as u8, ((mode >> 3) & 0x7) as u8, (mode & 0x7) as u8]
}

/// The special bits of a file mode as one number from 0 to 7: 4 for
/// set-user-id, 2 for set-group-id, 1 for the sticky bit. The bits of a
/// mode above these tell the kind of the file and are no mode bits.
pub open spec fn special_of(mode: u32) -> u8 {
    ((mode >> 9) & 0x7) as u8
}

/// The permissions that the file of the user directory must have: its
/// owner reads and writes it, and nobody else does anything with it.
pub const USER_PERMISSIONS: [u8; 3] = [6, 0, 0];

/// The permissions that the file of the user directory must have.
pub open spec fn user_permissions() -> Seq<u8> {
    seq![6u8, 0u8, 0u8]
}

/// Whether the mode is that of a file that is its owner's alone to read
/// and write: the permissions are those of `USER_PERMISSIONS`, and none of
/// the special bits is set.
pub open spec fn owner_only(mode: u32) -> bool {
    octets_of(mode) == user_permissions() && special_of(mode) == 0
}

/// What has a file mode.
pub trait PermissionsOctet {
    /// The mode.
    spec fn mode_bits(&self) -> u32;

    /// The mode.
    fn mode(&self) -> (mode: u32)
        ensures
            mode == self.mode_bits(),
    ;

    /// The permissions of owner, group and others, in this order.
    fn get_octets(&self) -> (octets: [u8; 3])
        ensures
            octets@ == octets_of(self.mode_bits()),
    {
        let mode: u32 = self.mode();
        assert((mode >> 6) & 0x7 < 8 && (mode >> 3) & 0x7 < 8 && mode & 0x7 < 8) by (bit_vector);
        let octets: [u8; 3] = [
            ((mode >> 6) & 0x7) as u8,
            ((mode >> 3) & 0x7) as u8,
            (mode & 0x7) as u8,
        ];
        assert(octets@ == octets_of(mode));
        octets
    }

    /// The special bits as one number: 4 for set-user-id, 2 for
    /// set-group-id, 1 for the sticky bit.
    fn get_special(&self) -> (special: u8)
        ensures
            special == special_of(self.mode_bits()),
    {
        let mode: u32 = self.mode();
        assert((mode >> 9) & 0x7 < 8) by (bit_vector);
        ((mode >> 9) & 0x7) as u8
    }
}

impl PermissionsOctet for u32 {
    open spec fn mode_bits(&self) -> u32 {
        *self
    }

    fn mode(&self) -> (mode: u32) {
        *self
    }
}

/// Whether a character is one of the ten digits.
pub open spec fn is_digit(c: char) -> bool {
    '0' <= c <= '9'
}

/// The value of a digit; 0 for any other character.
pub open spec fn digit_of(c: char) -> nat {
    if is_digit(c) {
        (c as nat - '0' as nat) as nat
    } else {
        0
    }
}

/// The number that a row of digits spells in base ten.
pub open spec fn number_of(digits: Seq<char>) -> nat
    decreases digits.len(),
{
    if digits.len() == 0 {
        0
    } else {
        number_of(digits.drop_last()) * 10 + digit_of(digits.last())
    }
}

/// The identifier that the name of a member of the directory spells: the
/// name is a number in base ten, of digits alone, without a zero in front
/// of another digit, and no greater than an identifier can be.
pub open spec fn user_id_of(key: Seq<char>) -> Option<UserId> {
    if key.len() > 0 && (forall|i: int| 0 <= i < key.len() ==> is_digit(#[trigger] key[i])) && (
    key.len() == 1 || key[0] != '0') && number_of(key) <= u64::MAX {
        Some(number_of(key) as u64)
    } else {
        None
    }
}

/// A row of digits spells no less than any of its beginnings.
proof fn lemma_number_grows(digits: Seq<char>, upto: int)
    requires
        0 <= upto <= digits.len(),
    ensures
        number_of(digits.take(upto)) <= number_of(digits),
    decreases digits.len(),
{
    if upto == digits.len() {
        assert(digits.take(upto) == digits);
    } else {
        assert(digits.drop_last().take(upto) == digits.take(upto));
        lemma_number_grows(digits.drop_last(), upto);
    }
}

/// Reads the identifier that the name of a member spells.
pub fn parse_user_id(key: &str) -> (r: Option<UserId>)
    ensures
        r == user_id_of(key@),
{
    if !key.is_ascii() {
        return None;
    }
    let bytes = key.as_bytes();
    proof {
        vstd::string::is_ascii_spec_bytes(key);
    }
    let n: usize = bytes.len();
    if n == 0 {
        return None;
    }
    if n > 1 && bytes[0] == 48 {
        return None;
    }
    let mut value: u64 = 0;
    let mut i: usize = 0;
    assert(key@.take(0) == Seq::<char>::empty());
    while i < n
        invariant
            i <= n,
            n == key@.len(),
            n == bytes@.len(),
            forall|j: int| 0 <= j < n ==> bytes@[j] == key@[j] as u8 && '\0' <= key@[j] <= '\u{7f}',
            forall|j: int| 0 <= j < i ==> is_digit(#[trigger] key@[j]),
            value == number_of(key@.take(i as int)),
        decreases n - i,
    {
        let b: u8 = bytes[i];
        if b < 48 || b > 57 {
            assert(!is_digit(key@[i as int]));
            return None;
        }
        assert(is_digit(key@[i as int]));
        let digit: u64 = (b - 48) as u64;
        assert(digit == digit_of(key@[i as int]));
        proof {
            assert(key@.take(i + 1).drop_last() == key@.take(i as int));
            assert(key@.take(i + 1).last() == key@[i as int]);
            lemma_number_grows(key@, i + 1);
        }
        let tenfold: u64 = match value.checked_mul(10) {
            Some(tenfold) => tenfold,
            None => {
                return None;
            },
        };
        value = match tenfold.checked_add(digit) {
            Some(sum) => sum,
            None => {
                return None;
            },
        };
        i += 1;
    }
    assert(key@.take(n as int) == key@);
    Some(value)
}

/// A user of the directory.
#[derive(Debug, PartialEq, Eq)]
pub struct User {
    /// The identifier: what the name of the member spells.
    pub id: UserId,
    /// The name of the user.
    pub username: String,
    /// The path of the file with the certificates of the user.
    pub certs: String,
    /// What the user may do.
    pub permissions: Permissions,
}

/// A `User` in plain values.
pub struct UserView {
    pub id: UserId,
    pub username: Seq<char>,
    pub certs: Seq<char>,
    pub permissions: u8,
}

impl View for User {
    type V = UserView;

    open spec fn view(&self) -> UserView {
        UserView {
            id: self.id,
            username: self.username@,
            certs: self.certs@,
            permissions: self.permissions@,
        }
    }
}

impl Clone for User {
    fn clone(&self) -> (r: User)
        ensures
            r == *self,
    {
        User {
            id: self.id,
            username: self.username.clone(),
            certs: self.certs.clone(),
            permissions: self.permissions,
        }
    }
}

/// The user that a member of the directory holds, under the identifier
/// that its name spells.
pub open spec fn user_of_json(id: UserId, doc: Json) -> Result<UserView, Problem> {
    if !(doc is Record) {
        Err(Problem::NotARecord)
    } else {
        match doc.text_member("username"@) {
            Err(p) => Err(p),
            Ok(username) => match doc.text_member("certs"@) {
                Err(p) => Err(p),
                Ok(certs) => match doc.number_member("permissions"@) {
                    Err(p) => Err(p),
                    Ok(value) => if value > 255 {
                        Err(Problem::OutOfRange { field: "permissions"@, value })
                    } else {
                        Ok(UserView { id, username, certs, permissions: value as u8 })
                    },
                },
            },
        }
    }
}

/// The users that the members of the directory hold, read in their order:
/// the first member that fails decides the problem, and of two members
/// with one identifier the later stays.
pub open spec fn directory_of(entries: Seq<(String, Json)>) -> Result<Map<UserId, UserView>, Problem>
    decreases entries.len(),
{
    if entries.len() == 0 {
        Ok(Map::empty())
    } else {
        match directory_of(entries.drop_last()) {
            Err(p) => Err(p),
            Ok(users) => match user_id_of(entries.last().0@) {
                None => Err(Problem::InvalidUserId { key: entries.last().0@ }),
                Some(id) => match user_of_json(id, entries.last().1) {
                    Err(p) => Err(p),
                    Ok(user) => Ok(users.insert(id, user)),
                },
            },
        }
    }
}

/// The users that a document holds, in its member `users`.
pub open spec fn users_of_json(doc: Json) -> Result<Map<UserId, UserView>, Problem> {
    if !(doc is Record) {
        Err(Problem::NotARecord)
    } else {
        match doc.member("users"@) {
            None => Err(Problem::MissingField { field: "users"@ }),
            Some(Json::Record(entries)) => directory_of(entries@),
            Some(_) => Err(Problem::InvalidType { field: "users"@ }),
        }
    }
}

/// The directory that a document holds for the file at `path`: its users,
/// where both reserved users are among them.
pub open spec fn directory_in(path: Seq<char>, doc: Json) -> Result<
    Map<UserId, UserView>,
    UserFailure,
> {
    match users_of_json(doc) {
        Err(problem) => Err(UserFailure::FileParse { path, problem }),
        Ok(users) => if !users.contains_key(ROOT_ID) {
            Err(UserFailure::ReservedUser { path, id: ROOT_ID })
        } else if !users.contains_key(GUEST_ID) {
            Err(UserFailure::ReservedUser { path, id: GUEST_ID })
        } else {
            Ok(users)
        },
    }
}

/// The directory that the file at `path` holds, given its mode and its
/// content. The mode is looked at before the content.
pub open spec fn directory_loaded(path: Seq<char>, mode: u32, content: Seq<u8>) -> Result<
    Map<UserId, UserView>,
    UserFailure,
> {
    if !owner_only(mode) {
        Err(
            UserFailure::IncorrectPermissions {
                path,
                got: octets_of(mode),
                expected: user_permissions(),
                special: special_of(mode),
            },
        )
    } else {
        match json_document(content) {
            None => Err(UserFailure::FileParse { path, problem: Problem::Syntax }),
            Some(doc) => directory_in(path, doc),
        }
    }
}

/// The users of a map in plain values.
pub open spec fn user_views(users: Map<UserId, User>) -> Map<UserId, UserView> {
    Map::new(|id: UserId| users.contains_key(id), |id: UserId| users[id]@)
}

/// Whether `id` is the highest of the identifiers.
pub open spec fn is_highest(ids: Set<UserId>, id: UserId) -> bool {
    ids.contains(id) && forall|other: UserId| ids.contains(other) ==> other <= id
}

/// Whether the user `id` is among the first `upto` entries of a walk
/// through the directory.
pub open spec fn visited(entries: Seq<(&UserId, &User)>, upto: int, id: UserId) -> bool {
    exists|j: int| 0 <= j < upto && *(#[trigger] entries[j]).0 == id
}

/// Whether a list of files names the user `id`.
pub open spec fn lists(files: Seq<(UserId, String)>, id: UserId) -> bool {
    exists|k: int| 0 <= k < files.len() && (#[trigger] files[k]).0 == id
}

/// The mode of the file at `path` where the file may be read, given what
/// came of opening it and of asking for its metadata. The failure to open
/// holds the error of opening, the failure to find the mode holds the error
/// of the metadata, and a mode with anything beyond the owner's reading and
/// writing is refused.
pub open spec fn mode_opened(
    path: Seq<char>,
    opened: Result<Result<u32, std::io::Error>, std::io::Error>,
) -> Result<u32, UserFailure> {
    match opened {
        Err(err) => Err(UserFailure::FileOpen { path, err }),
        Ok(Err(err)) => Err(UserFailure::Metadata { path, err }),
        Ok(Ok(mode)) => if owner_only(mode) {
            Ok(mode)
        } else {
            Err(
                UserFailure::IncorrectPermissions {
                    path,
                    got: octets_of(mode),
                    expected: user_permissions(),
                    special: special_of(mode),
                },
            )
        },
    }
}

/// The user directory.
#[derive(Debug)]
pub struct Users {
    /// The highest identifier in use.
    pub max_id: UserId,
    /// The users, by their identifiers.
    pub users: HashMap<UserId, User>,
}

/// A `Users` in plain values.
pub struct UsersView {
    pub max_id: UserId,
    pub users: Map<UserId, UserView>,
}

impl View for Users {
    type V = UsersView;

    open spec fn view(&self) -> UsersView {
        UsersView { max_id: self.max_id, users: user_views(self.users@) }
    }
}

impl UsersView {
    /// Whether the directory is as a loaded directory is: both reserved
    /// users are in it, every user has the identifier it stands under, and
    /// `max_id` is the highest identifier.
    pub open spec fn well_formed(self) -> bool {
        &&& self.users.contains_key(ROOT_ID)
        &&& self.users.contains_key(GUEST_ID)
        &&& forall|id: UserId| self.users.contains_key(id) ==> (#[trigger] self.users[id]).id == id
        &&& is_highest(self.users.dom(), self.max_id)
    }
}

impl User {
    /// Reads the user that a member of the directory holds.
    pub fn from_json(id: UserId, doc: &Json) -> (r: Result<User, DocumentError>)
        ensures
            match r {
                Ok(user) => user_of_json(id, *doc) == Ok::<UserView, Problem>(user@),
                Err(e) => user_of_json(id, *doc) == Err::<UserView, Problem>(e@),
            },
    {
        match doc {
            Json::Record(_) => {},
            _ => {
                return Err(DocumentError::NotARecord);
            },
        }
        let username = doc.text_field("username")?;
        let certs = doc.text_field("certs")?;
        let value: u64 = doc.number_field("permissions")?;
        if value > 255 {
            return Err(DocumentError::OutOfRange { field: "permissions".to_owned(), value });
        }
        Ok(User { id, username, certs, permissions: Permissions(value as u8) })
    }
}

/// A problem among the first members of the directory is the problem of
/// the whole.
proof fn lemma_directory_fails_early(entries: Seq<(String, Json)>, upto: int)
    requires
        0 <= upto <= entries.len(),
        directory_of(entries.take(upto)) is Err,
    ensures
        directory_of(entries) == directory_of(entries.take(upto)),
    decreases entries.len(),
{
    if upto == entries.len() {
        assert(entries.take(upto) == entries);
    } else {
        assert(entries.drop_last().take(upto) == entries.take(upto));
        lemma_directory_fails_early(entries.drop_last(), upto);
    }
}

/// Reads the users that the members of the directory hold, and finds the
/// highest identifier among them (0 where there is no user).
fn read_directory(entries: &Vec<(String, Json)>) -> (r: Result<
    (HashMap<UserId, User>, UserId),
    DocumentError,
>)
    ensures
        match r {
            Ok((users, max_id)) => {
                &&& directory_of(entries@) == Ok::<Map<UserId, UserView>, Problem>(
                    user_views(users@),
                )
                &&& forall|id: UserId| users@.contains_key(id) ==> (#[trigger] users@[id]).id == id
                &&& forall|id: UserId| #[trigger]
                    users@.contains_key(id) ==> id <= max_id && users@.contains_key(max_id)
            },
            Err(e) => directory_of(entries@) == Err::<Map<UserId, UserView>, Problem>(e@),
        },
{
    let mut users: HashMap<UserId, User> = HashMap::new();
    let mut max_id: UserId = 0;
    let mut i: usize = 0;
    assert(entries@.take(0) == Seq::<(String, Json)>::empty());
    assert(user_views(users@) == Map::<UserId, UserView>::empty());
    while i < entries.len()
        invariant
            i <= entries.len(),
            directory_of(entries@.take(i as int)) == Ok::<Map<UserId, UserView>, Problem>(
                user_views(users@),
            ),
            forall|id: UserId| users@.contains_key(id) ==> (#[trigger] users@[id]).id == id,
            forall|id: UserId| #[trigger] users@.contains_key(id) ==> id <= max_id,
            max_id == 0 || users@.contains_key(max_id),
        decreases entries.len() - i,
    {
        let ghost before = entries@.take(i as int);
        let ghost upto = entries@.take(i + 1);
        assert(upto.drop_last() == before);
        assert(upto.last() == entries@[i as int]);
        let id: UserId = match parse_user_id(entries[i].0.as_str()) {
            Some(id) => id,
            None => {
                proof {
                    lemma_directory_fails_early(entries@, i + 1);
                }
                return Err(DocumentError::InvalidUserId { key: entries[i].0.clone() });
            },
        };
        let user = match User::from_json(id, &entries[i].1) {
            Ok(user) => user,
            Err(err) => {
                proof {
                    lemma_directory_fails_early(entries@, i + 1);
                }
                return Err(err);
            },
        };
        let ghost seen = users@;
        let ghost added = user@;
        users.insert(id, user);
        assert(user_views(users@) == user_views(seen).insert(id, added));
        if id > max_id {
            max_id = id;
        }
        i += 1;
    }
    assert(entries@.take(entries.len() as int) == entries@);
    Ok((users, max_id))
}

impl Users {
    /// Reads the directory that a document holds for the file at `path`.
    /// Both reserved users must be in it: the root user is looked for
    /// first, then the guest.
    pub fn from_json(path: &str, doc: &Json) -> (r: Result<Users, UserError>)
        ensures
            match r {
                Ok(users) => directory_in(path@, *doc) == Ok::<Map<UserId, UserView>, UserFailure>(
                    users@.users,
                ) && users@.well_formed(),
                Err(e) => directory_in(path@, *doc) == Err::<Map<UserId, UserView>, UserFailure>(
                    e@,
                ),
            },
    {
        let entries = match doc {
            Json::Record(_) => match doc.get("users") {
                None => {
                    return Err(
                        UserError::FileParseError {
                            path: path.to_owned(),
                            err: DocumentError::MissingField { field: "users".to_owned() },
                        },
                    );
                },
                Some(Json::Record(entries)) => entries,
                Some(_) => {
                    return Err(
                        UserError::FileParseError {
                            path: path.to_owned(),
                            err: DocumentError::InvalidType { field: "users".to_owned() },
                        },
                    );
                },
            },
            _ => {
                return Err(
                    UserError::FileParseError {
                        path: path.to_owned(),
                        err: DocumentError::NotARecord,
                    },
                );
            },
        };
        let (users, max_id) = match read_directory(entries) {
            Ok(found) => found,
            Err(err) => {
                return Err(UserError::FileParseError { path: path.to_owned(), err });
            },
        };
        if !users.contains_key(&ROOT_ID) {
            return Err(UserError::ReservedUserError { path: path.to_owned(), id: ROOT_ID });
        }
        if !users.contains_key(&GUEST_ID) {
            return Err(UserError::ReservedUserError { path: path.to_owned(), id: GUEST_ID });
        }
        let res = Users { max_id, users };
        proof {
            assert(res.users@.contains_key(ROOT_ID));
            assert(res@.users.dom() =~= res.users@.dom());
        }
        Ok(res)
    }

    /// Takes what came of opening the file at `path` and of asking for its
    /// metadata, and gives the mode of the file where it may be read: the
    /// file opened, its mode was found, and the mode is that of a file that
    /// is its owner's alone to read and write. Nothing of the content is
    /// looked at.
    pub fn check_opened(
        path: &str,
        opened: Result<Result<u32, std::io::Error>, std::io::Error>,
    ) -> (r: Result<u32, UserError>)
        ensures
            match r {
                Ok(mode) => mode_opened(path@, opened) == Ok::<u32, UserFailure>(mode),
                Err(e) => mode_opened(path@, opened) == Err::<u32, UserFailure>(e@),
            },
    {
        let metadata = match opened {
            Ok(metadata) => metadata,
            Err(err) => {
                return Err(UserError::FileOpenError { path: path.to_owned(), err });
            },
        };
        let mode: u32 = match metadata {
            Ok(mode) => mode,
            Err(err) => {
                return Err(UserError::MetadataError { path: path.to_owned(), err });
            },
        };
        match Users::check_permissions(path, mode) {
            Ok(_) => Ok(mode),
            Err(err) => Err(err),
        }
    }

    /// Checks that the file at `path`, with this mode, is its owner's alone
    /// to read and write: any other permission, and any special bit, is
    /// refused. What of the mode tells the kind of the file is not looked
    /// at.
    pub fn check_permissions(path: &str, mode: u32) -> (r: Result<(), UserError>)
        ensures
            match r {
                Ok(_) => owner_only(mode),
                Err(e) => !owner_only(mode) && e@ == (UserFailure::IncorrectPermissions {
                    path: path@,
                    got: octets_of(mode),
                    expected: user_permissions(),
                    special: special_of(mode),
                }),
            },
    {
        let perms: [u8; 3] = mode.get_octets();
        let special: u8 = mode.get_special();
        assert(USER_PERMISSIONS@ == user_permissions());
        if perms[0] != USER_PERMISSIONS[0] || perms[1] != USER_PERMISSIONS[1] || perms[2]
            != USER_PERMISSIONS[2] || special != 0 {
            return Err(
                UserError::IncorrectPermissions {
                    path: path.to_owned(),
                    got: perms,
                    expected: USER_PERMISSIONS,
                    special,
                },
            );
        }
        assert(perms@ == user_permissions());
        Ok(())
    }

    /// Loads the directory from the file at `path`, given the mode and the
    /// content that were read from it. The mode is checked before the
    /// content is looked at, and no part of a directory is returned where
    /// anything fails.
    pub fn from_file(path: &str, mode: u32, content: &[u8]) -> (r: Result<Users, UserError>)
        ensures
            match r {
                Ok(users) => directory_loaded(path@, mode, content@) == Ok::<
                    Map<UserId, UserView>,
                    UserFailure,
                >(users@.users) && users@.well_formed(),
                Err(e) => directory_loaded(path@, mode, content@) == Err::<
                    Map<UserId, UserView>,
                    UserFailure,
                >(e@),
            },
    {
        match Users::check_permissions(path, mode) {
            Ok(_) => {},
            Err(err) => {
                return Err(err);
            },
        }
        let res = match Json::parse(content) {
            Ok(doc) => doc,
            Err(err) => {
                return Err(
                    UserError::FileParseError {
                        path: path.to_owned(),
                        err: DocumentError::Syntax { err },
                    },
                );
            },
        };
        Users::from_json(path, &res)
    }

    /// The files with the certificates of the users: for every user but
    /// the guest, who has no certificate, the identifier and the path of
    /// the file. Every such user is listed once; the order is not fixed.
    pub fn certificate_files(&self) -> (r: Vec<(UserId, String)>)
        ensures
            forall|k: int|
                0 <= k < r@.len() ==> {
                    &&& (#[trigger] r@[k]).0 != GUEST_ID
                    &&& self.users@.contains_key(r@[k].0)
                    &&& r@[k].1@ == self.users@[r@[k].0].certs@
                },
            forall|id: UserId|
                self.users@.contains_key(id) && id != GUEST_ID ==> lists(r@, id),
            forall|k: int, l: int| 0 <= k < l < r@.len() ==> r@[k].0 != r@[l].0,
    {
        let mut r: Vec<(UserId, String)> = Vec::new();
        for entry in it: self.users.iter()
            invariant
                forall|k: int|
                    0 <= k < r@.len() ==> {
                        &&& (#[trigger] r@[k]).0 != GUEST_ID
                        &&& self.users@.contains_key(r@[k].0)
                        &&& r@[k].1@ == self.users@[r@[k].0].certs@
                    },
                forall|j: int|
                    0 <= j < it.index() && *(#[trigger] it.seq()[j]).0 != GUEST_ID ==> lists(
                        r@,
                        *it.seq()[j].0,
                    ),
                forall|k: int|
                    0 <= k < r@.len() ==> visited(it.seq(), it.index(), (#[trigger] r@[k]).0),
                forall|k: int, l: int| 0 <= k < l < r@.len() ==> r@[k].0 != r@[l].0,
                it.seq().no_duplicates(),
                forall|j: int|
                    0 <= j < it.seq().len() ==> self.users@.contains_key(
                        *(#[trigger] it.seq()[j]).0,
                    ) && self.users@[*it.seq()[j].0] == *it.seq()[j].1,
        {
            let (id, user) = entry;
            let ghost before = r@;
            let ghost at = it.index();
            assert forall|k: int| 0 <= k < before.len() implies (#[trigger] before[k]).0 != *id by {
                let j = choose|j: int| 0 <= j < at && *(#[trigger] it.seq()[j]).0 == before[k].0;
                if before[k].0 == *id {
                    assert(it.seq()[j] == it.seq()[at]);
                }
            }
            if *id != GUEST_ID {
                r.push((*id, user.certs.clone()));
                assert(r@[before.len() as int].0 == *id);
            }
            assert forall|j: int|
                0 <= j < it.index() + 1 && *(#[trigger] it.seq()[j]).0 != GUEST_ID implies lists(
                r@,
                *it.seq()[j].0,
            ) by {
                if j < it.index() {
                    let k = choose|k: int| 0 <= k < before.len() && before[k].0 == *it.seq()[j].0;
                    assert(r@[k].0 == *it.seq()[j].0);
                } else {
                    assert(r@[before.len() as int].0 == *it.seq()[j].0);
                }
            }
        }
        r
    }
}

/// A mode is that of a file that is its owner's alone to read and write
/// exactly where its twelve mode bits, the nine permission bits and the
/// three special bits, are those of `0o600`.
pub proof fn law_owner_only(mode: u32)
    ensures
        owner_only(mode) <==> mode & 0o7777 == 0o600,
{
    let owner = ((mode >> 6) & 0x7) as u8;
    let group = ((mode >> 3) & 0x7) as u8;
    let others = (mode & 0x7) as u8;
    assert(octets_of(mode)[0] == owner && octets_of(mode)[1] == group && octets_of(mode)[2]
        == others);
    assert(user_permissions()[0] == 6 && user_permissions()[1] == 0 && user_permissions()[2] == 0);
    assert((((mode >> 6) & 0x7) as u8 == 6 && ((mode >> 3) & 0x7) as u8 == 0 && (mode & 0x7) as u8
        == 0 && ((mode >> 9) & 0x7) as u8 == 0) <==> mode & 0o7777 == 0o600) by (bit_vector);
    if mode & 0o7777 == 0o600 {
        assert(octets_of(mode) =~= user_permissions());
    }
}

/// A file with any mode bit beyond those of a file that its owner reads
/// and writes is refused for its permissions, whatever it holds.
pub proof fn law_mode_decides_first(path: Seq<char>, mode: u32, content: Seq<u8>)
    requires
        mode & 0o7777 != 0o600,
    ensures
        directory_loaded(path, mode, content) == Err::<Map<UserId, UserView>, UserFailure>(
            UserFailure::IncorrectPermissions {
                path,
                got: octets_of(mode),
                expected: user_permissions(),
                special: special_of(mode),
            },
        ),
{
    law_owner_only(mode);
}

/// A directory without the guest is refused for the guest, however well
/// the root user and the others are formed.
pub proof fn law_guest_required(path: Seq<char>, doc: Json)
    requires
        users_of_json(doc) matches Ok(users) && users.contains_key(ROOT_ID) && !users.contains_key(
            GUEST_ID,
        ),
    ensures
        directory_in(path, doc) == Err::<Map<UserId, UserView>, UserFailure>(
            UserFailure::ReservedUser { path, id: GUEST_ID },
        ),
{
}

/// No directory is loaded without both reserved users.
pub proof fn law_reserved_users_present(path: Seq<char>, mode: u32, content: Seq<u8>)
    ensures
        directory_loaded(path, mode, content) matches Ok(users) ==> users.contains_key(ROOT_ID)
            && users.contains_key(GUEST_ID),
{
}

/// An identifier written in base ten is the name of a member that spells
/// it.
pub proof fn law_user_id_round_trip(id: UserId)
    ensures
        user_id_of(decimal_text(id as nat)) == Some(id),
{
    lemma_decimal_text(id as nat);
}

/// A number written in base ten is a row of digits, without a zero in
/// front of another digit, that spells the number.
proof fn lemma_decimal_text(n: nat)
    ensures
        decimal_text(n).len() > 0,
        forall|i: int| 0 <= i < decimal_text(n).len() ==> is_digit(#[trigger] decimal_text(n)[i]),
        decimal_text(n).len() == 1 || decimal_text(n)[0] != '0',
        number_of(decimal_text(n)) == n,
    decreases n,
{
    let digit = digit_char(n % 10);
    assert(is_digit(digit) && digit_of(digit) == n % 10);
    if n < 10 {
        assert(decimal_text(n) =~= seq![digit]);
        assert(decimal_text(n).drop_last() =~= Seq::<char>::empty());
        assert(number_of(decimal_text(n).drop_last()) == 0);
    } else {
        lemma_decimal_text(n / 10);
        let front = decimal_text(n / 10);
        assert(decimal_text(n) =~= front.push(digit));
        assert(decimal_text(n).drop_last() =~= front);
        assert(decimal_text(n)[0] == front[0]);
        if front.len() == 1 {
            assert(number_of(front.drop_last()) == 0) by {
                assert(front.drop_last() =~= Seq::<char>::empty());
            }
            assert(digit_of(front[0]) == n / 10);
        }
    }
}

} // verus!
