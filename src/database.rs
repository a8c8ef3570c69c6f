use base64::prelude::BASE64_STANDARD;
use base64::Engine;
use std::collections::BTreeMap;
use std::collections::HashMap;
use vstd::prelude::*;

verus! {

/// Why the reference data could not be built.
#[derive(Debug, Clone, Copy, PartialEq, Eq, Structural)]
pub enum BootstrapError {
    /// A resource could not be fetched.
    NetworkError,
    /// A resource was not JSON of the expected shape.
    SchemaError,
    /// A key was not valid base64.
    EncodingError,
}

/// serde_json's parse error, mapped to a schema error.
#[verifier::external_type_specification]
#[verifier::external_body]
pub struct ExJsonError(serde_json::Error);

/// base64's decode error, mapped to an encoding error.
#[verifier::external_type_specification]
#[verifier::external_body]
pub struct ExDecodeError(base64::DecodeError);

/// The bytes that standard base64 text `s` stands for, or `None` where `s`
/// is not valid standard base64.
pub uninterp spec fn base64_decoded(s: Seq<char>) -> Option<Seq<u8>>;

/// For JSON text that is an object: the member `key` of each of its values,
/// in the object's order, as a `u64` where it is an integer that fits, else
/// `None`. `None` where the text is not a JSON object.
pub uninterp spec fn json_member_u64s(text: Seq<char>, key: Seq<char>) -> Option<Seq<Option<u64>>>;

/// For JSON text that is an object from `u32` numbers to strings: its
/// entries, in key order. `None` where the text is not such an object.
pub uninterp spec fn json_key_table(text: Seq<char>) -> Option<Seq<(u32, Seq<char>)>>;

/// The entries of a key table, each key as its characters.
pub open spec fn key_entries(entries: Seq<(u32, String)>) -> Seq<(u32, Seq<char>)> {
    entries.map_values(|e: (u32, String)| (e.0, e.1@))
}

/// Relies on serde_json::from_str parsing the text into a `Value`, and on
/// serde_json's `Value::as_object`, `Index<&str>` for `Value` (null where a
/// member is missing) and `Value::as_u64`.
#[verifier::external_body]
fn member_u64s(text: &str, key: &str) -> (r: Option<Vec<Option<u64>>>)
    ensures
        r is Some <==> json_member_u64s(text@, key@) is Some,
        r is Some ==> r->Some_0@ == json_member_u64s(text@, key@)->Some_0,
{
    let value: serde_json::Value = serde_json::from_str(text).ok()?;
    value.as_object().map(|m| m.values().map(|v| v[key].as_u64()).collect())
}

/// Relies on serde_json::from_str parsing the text into a
/// `BTreeMap<u32, String>`, whose entries come out in key order.
#[verifier::external_body]
fn parse_key_table(text: &str) -> (r: Result<Vec<(u32, String)>, serde_json::Error>)
    ensures
        r is Ok <==> json_key_table(text@) is Some,
        r is Ok ==> key_entries(r->Ok_0@) == json_key_table(text@)->Some_0,
{
    serde_json::from_str::<BTreeMap<u32, String>>(text).map(|m| m.into_iter().collect())
}

/// Relies on base64's `Engine::decode` with the standard alphabet and
/// padding.
#[verifier::external_body]
fn decode_base64(s: &str) -> (r: Result<Vec<u8>, base64::DecodeError>)
    ensures
        r is Ok <==> base64_decoded(s@) is Some,
        r is Ok ==> r->Ok_0@ == base64_decoded(s@)->Some_0,
{
    BASE64_STANDARD.decode(s)
}

/// Whether every field is present and fits in a `u32`.
pub open spec fn valid_ids(fields: Seq<Option<u64>>) -> bool {
    forall|i: int| 0 <= i < fields.len() ==> fields[i] is Some && fields[i]->Some_0 <= u32::MAX
}

/// The identifiers that valid fields hold.
pub open spec fn ids_of(fields: Seq<Option<u64>>) -> Seq<u32> {
    fields.map_values(|f: Option<u64>| f->Some_0 as u32)
}

/// The identifier list of a reference table: the member `key` of each of
/// its entries, or `None` where the table is malformed.
pub open spec fn id_list(text: Seq<char>, key: Seq<char>) -> Option<Seq<u32>> {
    match json_member_u64s(text, key) {
        Some(fields) => if valid_ids(fields) {
            Some(ids_of(fields))
        } else {
            None
        },
        None => None,
    }
}

/// The identifier list of an achievement table.
pub open spec fn achievement_list_of(text: Seq<char>) -> Option<Seq<u32>> {
    id_list(text, "AchievementID"@)
}

/// The identifier list of a book table.
pub open spec fn book_list_of(text: Seq<char>) -> Option<Seq<u32>> {
    id_list(text, "BookID"@)
}

/// The identifiers that the fields of a reference list hold; a missing
/// field, or one above `u32::MAX`, makes the list malformed.
pub fn ids_from_fields(fields: &Vec<Option<u64>>) -> (r: Result<Vec<u32>, BootstrapError>)
    ensures
        r is Ok <==> valid_ids(fields@),
        r is Err ==> r == Err::<Vec<u32>, BootstrapError>(BootstrapError::SchemaError),
        r is Ok ==> r->Ok_0@ == ids_of(fields@),
{
    let mut ids: Vec<u32> = Vec::new();
    let mut i: usize = 0;
    while i < fields.len()
        invariant
            i <= fields.len(),
            forall|j: int| 0 <= j < i ==> fields@[j] is Some && fields@[j]->Some_0 <= u32::MAX,
            ids@ == ids_of(fields@.take(i as int)),
        decreases fields.len() - i,
    {
        match fields[i] {
            Some(id) => {
                if id > u32::MAX as u64 {
                    return Err(BootstrapError::SchemaError);
                }
                ids.push(id as u32);
            },
            None => return Err(BootstrapError::SchemaError),
        }
        assert(ids_of(fields@.take(i + 1)) =~= ids_of(fields@.take(i as int)).push(
            fields@[i as int]->Some_0 as u32,
        ));
        i = i + 1;
    }
    assert(fields@.take(fields.len() as int) =~= fields@);
    Ok(ids)
}

/// Reads the member `key` of every entry of a JSON object as an identifier.
fn load_id_list(text: &str, key: &str) -> (r: Result<Vec<u32>, BootstrapError>)
    ensures
        r is Ok <==> id_list(text@, key@) is Some,
        r is Ok ==> r->Ok_0@ == id_list(text@, key@)->Some_0,
        r is Err ==> r->Err_0 == BootstrapError::SchemaError,
{
    match member_u64s(text, key) {
        Some(fields) => ids_from_fields(&fields),
        None => Err(BootstrapError::SchemaError),
    }
}

/// Whether every key of the table is valid base64.
pub open spec fn all_keys_decode(t: Seq<(u32, Seq<char>)>) -> bool {
    forall|i: int| 0 <= i < t.len() ==> base64_decoded(t[i].1) is Some
}

/// Whether no entry after the `i`th has the same account.
pub open spec fn last_for_account(t: Seq<(u32, Seq<char>)>, i: int) -> bool {
    forall|j: int| i < j < t.len() ==> t[j].0 != t[i].0
}

/// Whether `m` holds the decoded keys of table `t`: its accounts are those
/// of `t`, and where an account appears twice the later key wins.
pub open spec fn decoded_table(t: Seq<(u32, Seq<char>)>, m: Map<u32, Vec<u8>>) -> bool {
    &&& forall|k: u32| m.contains_key(k) <==> exists|i: int| 0 <= i < t.len() && t[i].0 == k
    &&& forall|i: int|
        0 <= i < t.len() && last_for_account(t, i) ==> m[t[i].0]@ == base64_decoded(t[i].1)->Some_0
}

/// Decodes the base64 key of each account into bytes; where an account
/// appears twice, the later key wins.
pub fn decode_keys(entries: &Vec<(u32, String)>) -> (r: Result<HashMap<u32, Vec<u8>>, BootstrapError>)
    ensures
        r is Ok <==> all_keys_decode(key_entries(entries@)),
        r is Err ==> r->Err_0 == BootstrapError::EncodingError,
        r is Ok ==> decoded_table(key_entries(entries@), r->Ok_0@),
{
    broadcast use vstd::std_specs::hash::group_hash_axioms;

    let ghost t = key_entries(entries@);
    let mut keys: HashMap<u32, Vec<u8>> = HashMap::new();
    let mut i: usize = 0;
    while i < entries.len()
        invariant
            i <= entries.len(),
            t == key_entries(entries@),
            forall|j: int| 0 <= j < i ==> base64_decoded(t[j].1) is Some,
            forall|k: u32| keys@.contains_key(k) <==> exists|j: int| 0 <= j < i && t[j].0 == k,
            forall|j: int|
                0 <= j < i && (forall|l: int| j < l < i ==> t[l].0 != t[j].0) ==> keys@[t[j].0]@
                    == base64_decoded(t[j].1)->Some_0,
        decreases entries.len() - i,
    {
        let account = entries[i].0;
        assert(t[i as int] == (account, entries@[i as int].1@));
        match decode_base64(entries[i].1.as_str()) {
            Ok(bytes) => {
                keys.insert(account, bytes);
            },
            Err(_) => return Err(BootstrapError::EncodingError),
        }
        assert forall|k: u32|
            keys@.contains_key(k) <==> exists|j: int| 0 <= j < i + 1 && t[j].0 == k by {
            if k == account {
                assert(t[i as int].0 == k);
            }
        }
        i = i + 1;
    }
    Ok(keys)
}

/// The reference data: the valid achievement and book identifiers, and the
/// key bytes of each account.
pub struct Database {
    achievement_list: Vec<u32>,
    book_list: Vec<u32>,
    keys: HashMap<u32, Vec<u8>>,
}

impl Database {
    /// The valid achievement identifiers.
    pub closed spec fn achievement_ids(&self) -> Seq<u32> {
        self.achievement_list@
    }

    /// The valid book identifiers.
    pub closed spec fn book_ids(&self) -> Seq<u32> {
        self.book_list@
    }

    /// The key bytes of each account.
    pub closed spec fn key_table(&self) -> Map<u32, Vec<u8>> {
        self.keys@
    }


    /// Builds the reference data from its three parts.
    pub fn new(achievement_list: Vec<u32>, book_list: Vec<u32>, keys: HashMap<u32, Vec<u8>>) -> (r: Database)
        ensures
            r.achievement_ids() == achievement_list@,
            r.book_ids() == book_list@,
            r.key_table() == keys@,
    {
        Database { achievement_list, book_list, keys }
    }

    /// Builds the reference data from the three documents fetched from the
    /// online resources: the achievement table, the book table and the key
    /// table. The first malformed document decides the error.
    pub fn new_from_online(achievement_text: &str, book_text: &str, key_text: &str) -> (r: Result<Database, BootstrapError>)
        ensures
            r is Ok <==> achievement_list_of(achievement_text@) is Some && book_list_of(
                book_text@,
            ) is Some && json_key_table(key_text@) is Some && all_keys_decode(
                json_key_table(key_text@)->Some_0,
            ),
            r is Ok ==> r->Ok_0.achievement_ids() == achievement_list_of(achievement_text@)->Some_0,
            r is Ok ==> r->Ok_0.book_ids() == book_list_of(book_text@)->Some_0,
            r is Ok ==> decoded_table(json_key_table(key_text@)->Some_0, r->Ok_0.key_table()),
            r is Err ==> (r->Err_0 == BootstrapError::EncodingError <==> (achievement_list_of(
                achievement_text@,
            ) is Some && book_list_of(book_text@) is Some && json_key_table(key_text@) is Some)),
            r is Err ==> r->Err_0 == BootstrapError::SchemaError || r->Err_0
                == BootstrapError::EncodingError,
    {
        let achievement_list = match Self::load_online_achievement_list(achievement_text) {
            Ok(list) => list,
            Err(e) => return Err(e),
        };
        let book_list = match Self::load_online_book_list(book_text) {
            Ok(list) => list,
            Err(e) => return Err(e),
        };
        let keys = match Self::load_online_keys(key_text) {
            Ok(keys) => keys,
            Err(e) => return Err(e),
        };
        Ok(Database::new(achievement_list, book_list, keys))
    }

    /// Reads the achievement table: the `AchievementID` of every entry.
    pub fn load_online_achievement_list(text: &str) -> (r: Result<Vec<u32>, BootstrapError>)
        ensures
            r is Ok <==> achievement_list_of(text@) is Some,
            r is Ok ==> r->Ok_0@ == achievement_list_of(text@)->Some_0,
            r is Err ==> r->Err_0 == BootstrapError::SchemaError,
    {
        load_id_list(text, "AchievementID")
    }

    /// Reads the book table: the `BookID` of every entry.
    pub fn load_online_book_list(text: &str) -> (r: Result<Vec<u32>, BootstrapError>)
        ensures
            r is Ok <==> book_list_of(text@) is Some,
            r is Ok ==> r->Ok_0@ == book_list_of(text@)->Some_0,
            r is Err ==> r->Err_0 == BootstrapError::SchemaError,
    {
        load_id_list(text, "BookID")
    }

    /// Reads the key table, an object from account identifier to base64 key,
    /// and decodes every key.
    pub fn load_online_keys(text: &str) -> (r: Result<HashMap<u32, Vec<u8>>, BootstrapError>)
        ensures
            r is Ok <==> json_key_table(text@) is Some && all_keys_decode(
                json_key_table(text@)->Some_0,
            ),
            r is Err ==> (r->Err_0 == BootstrapError::SchemaError <==> json_key_table(text@) is None),
            r is Err ==> r->Err_0 == BootstrapError::SchemaError || r->Err_0
                == BootstrapError::EncodingError,
            r is Ok ==> decoded_table(json_key_table(text@)->Some_0, r->Ok_0@),
    {
        match parse_key_table(text) {
            Ok(entries) => decode_keys(&entries),
            Err(_) => Err(BootstrapError::SchemaError),
        }
    }

    pub fn keys(&self) -> (r: &HashMap<u32, Vec<u8>>)
        ensures
            r@ == self.key_table(),
    {
        &self.keys
    }

    /// Whether `id` is a valid achievement identifier.
    pub fn has_achievement(&self, id: u32) -> (r: bool)
        ensures
            r == self.achievement_ids().contains(id),
    {
        list_contains(&self.achievement_list, id)
    }

    /// Whether `id` is a valid book identifier.
    pub fn has_book(&self, id: u32) -> (r: bool)
        ensures
            r == self.book_ids().contains(id),
    {
        list_contains(&self.book_list, id)
    }
}

fn list_contains(v: &Vec<u32>, x: u32) -> (r: bool)
    ensures
        r == v@.contains(x),
{
    let mut i: usize = 0;
    while i < v.len()
        invariant
            i <= v.len(),
            forall|j: int| 0 <= j < i ==> v@[j] != x,
        decreases v.len() - i,
    {
        if v[i] == x {
            return true;
        }
        i = i + 1;
    }
    false
}

} // verus!
