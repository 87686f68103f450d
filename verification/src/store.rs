//! Function metadata as the store holds it: the record of a function, its
//! build status, the keys under which records live, and the update rule.

use vstd::prelude::*;
use vstd::string::*;
use crate::models::{
    joined_names, CodeRunnerError, CodeRunnerLanguage, ErrorView, UpdateFunctionInput,
};
use crate::text::{chars_of, concat3, join, string_of, texts};

verus! {

/// Build status of a function.
#[derive(Debug, Clone, PartialEq, Eq)]
pub enum FunctionStatus {
    /// The function has not been built yet.
    NotBuilt,
    /// The function is being built.
    Building,
    /// The latest build of the function failed.
    Error(CodeRunnerError),
    /// The function is ready to be used.
    Ready {
        /// The image tag of the function.
        tag: String,
        /// The image id of the function.
        id: String,
    },
}

/// Model of a `FunctionStatus`.
pub enum StatusView {
    NotBuilt,
    Building,
    Error(ErrorView),
    Ready { tag: Seq<char>, id: Seq<char> },
}

impl View for FunctionStatus {
    type V = StatusView;

    open spec fn view(&self) -> StatusView {
        match self {
            FunctionStatus::NotBuilt => StatusView::NotBuilt,
            FunctionStatus::Building => StatusView::Building,
            FunctionStatus::Error(e) => StatusView::Error(e@),
            FunctionStatus::Ready { tag, id } => StatusView::Ready { tag: tag@, id: id@ },
        }
    }
}

impl Default for FunctionStatus {
    fn default() -> (s: Self)
        ensures
            s@ == StatusView::NotBuilt,
    {
        FunctionStatus::NotBuilt
    }
}

impl FunctionStatus {
    /// Whether the function can be invoked.
    pub fn is_ready(&self) -> (b: bool)
        ensures
            b == (self@ is Ready),
    {
        match self {
            FunctionStatus::Ready { .. } => true,
            _ => false,
        }
    }

    /// A copy of the status.
    pub fn duplicate(&self) -> (s: FunctionStatus)
        ensures
            s@ == self@,
    {
        match self {
            FunctionStatus::NotBuilt => FunctionStatus::NotBuilt,
            FunctionStatus::Building => FunctionStatus::Building,
            FunctionStatus::Error(e) => FunctionStatus::Error(e.duplicate()),
            FunctionStatus::Ready { tag, id } => FunctionStatus::Ready {
                tag: tag.clone(),
                id: id.clone(),
            },
        }
    }
}

/// A point in time: whole seconds since the Unix epoch and the nanoseconds
/// since the last second boundary.
#[derive(Debug, Clone, Copy, PartialEq, Eq, Structural)]
pub struct Timestamp {
    pub secs: i64,
    pub nanos: u32,
}

impl Timestamp {
    /// `self` is not earlier than `other`.
    pub open spec fn at_or_after(self, other: Timestamp) -> bool {
        self.secs > other.secs || (self.secs == other.secs && self.nanos >= other.nanos)
    }

    /// Whether `self` is not earlier than `other`.
    pub fn is_at_or_after(&self, other: &Timestamp) -> (b: bool)
        ensures
            b == self.at_or_after(*other),
    {
        self.secs > other.secs || (self.secs == other.secs && self.nanos >= other.nanos)
    }
}

/// The current time of the system clock, read through `chrono::Utc::now`,
/// `DateTime::timestamp` and `DateTime::timestamp_subsec_nanos`. The clock
/// counts from the Unix epoch, so the seconds are not negative, and it
/// reports no leap second, so the nanoseconds stay below one second. A
/// system clock set before the epoch is not supported.
#[verifier::external_body]
fn utc_now() -> (t: Timestamp)
    ensures
        t.secs >= 0,
        t.nanos < 1_000_000_000,
{
    let now = chrono::Utc::now();
    Timestamp { secs: now.timestamp(), nanos: now.timestamp_subsec_nanos() }
}

/// Full function record held by the store.
#[derive(Debug, Clone, PartialEq, Eq)]
pub struct FunctionDetail {
    pub code: String,
    pub lang: CodeRunnerLanguage,
    pub description: Option<String>,
    /// The dependency names, separated by spaces.
    pub dependencies: Option<String>,
    pub status: FunctionStatus,
    pub created_at: Timestamp,
    pub updated_at: Timestamp,
    pub version: u32,
}

/// Selected fields of a function record.
#[derive(Debug, Clone, PartialEq, Eq)]
pub struct FunctionInfo {
    pub lang: CodeRunnerLanguage,
    pub description: Option<String>,
    pub status: FunctionStatus,
    pub created_at: Timestamp,
    pub updated_at: Timestamp,
    pub version: u32,
}

/// Text of an optional string.
pub open spec fn opt_text(s: Option<String>) -> Option<Seq<char>> {
    match s {
        Some(t) => Some(t@),
        None => None,
    }
}

/// The stamp of an update at `now` on a record last updated at `prior`: the
/// clock's time, or the prior stamp where the clock has gone back.
pub open spec fn update_stamp(prior: Timestamp, now: Timestamp) -> Timestamp {
    if now.at_or_after(prior) {
        now
    } else {
        prior
    }
}

/// `after` is `before` updated with `updated_info` at `now`: code,
/// description and dependencies are those of the input, the status is
/// `Building`, the version is the next one, the stamp does not go back, and
/// language and creation time stay.
pub open spec fn is_update_of(
    before: FunctionDetail,
    after: FunctionDetail,
    updated_info: UpdateFunctionInput,
    now: Timestamp,
) -> bool {
    &&& after.code == updated_info.code
    &&& after.description == updated_info.description
    &&& opt_text(after.dependencies) == joined_names(updated_info.dependencies)
    &&& after.status@ == StatusView::Building
    &&& after.updated_at == update_stamp(before.updated_at, now)
    &&& after.version == before.version + 1
    &&& after.lang == before.lang
    &&& after.created_at == before.created_at
}

/// Every update strictly increases the version, leaves `updated_at` no
/// earlier than it was, and sets the status to `Building`, whatever the
/// status was and whatever the clock says.
pub proof fn lemma_update_advances(
    before: FunctionDetail,
    after: FunctionDetail,
    updated_info: UpdateFunctionInput,
    now: Timestamp,
)
    requires
        is_update_of(before, after, updated_info, now),
    ensures
        after.version > before.version,
        after.updated_at.at_or_after(before.updated_at),
        now.at_or_after(before.updated_at) ==> after.updated_at == now,
        after.status@ is Building,
{
}

impl FunctionDetail {
    /// The record of a function that was just created: no description, no
    /// dependencies, being built, at its first version.
    pub fn created(code: String, lang: CodeRunnerLanguage, now: Timestamp) -> (d: FunctionDetail)
        ensures
            d.code == code,
            d.lang == lang,
            d.description is None,
            d.dependencies is None,
            d.status@ == StatusView::Building,
            d.created_at == now,
            d.updated_at == now,
            d.version == 0,
    {
        FunctionDetail {
            code,
            lang,
            description: None,
            dependencies: None,
            status: FunctionStatus::Building,
            created_at: now,
            updated_at: now,
            version: 0,
        }
    }

    /// Replaces code, description and dependencies by those of `updated_info`,
    /// sets the status to `Building`, stamps the record and bumps the
    /// version. The stamp is `now`, unless the clock has gone back: then the
    /// record keeps its stamp, so that `updated_at` never decreases.
    pub fn update_at(&mut self, updated_info: UpdateFunctionInput, now: Timestamp)
        requires
            old(self).version < u32::MAX,
        ensures
            is_update_of(*old(self), *final(self), updated_info, now),
            final(self).version > old(self).version,
            final(self).updated_at.at_or_after(old(self).updated_at),
            final(self).updated_at == (if now.at_or_after(old(self).updated_at) {
                now
            } else {
                old(self).updated_at
            }),
            final(self).status@ is Building,
    {
        let UpdateFunctionInput { code, description, dependencies } = updated_info;
        self.code = code;
        self.description = description;
        self.dependencies = match &dependencies {
            Some(d) => Some(join(d, " ")),
            None => None,
        };
        self.status = FunctionStatus::Building;
        if now.is_at_or_after(&self.updated_at) {
            self.updated_at = now;
        }
        self.version = self.version + 1;
    }

    /// Updates the record with new input at the current time of the system
    /// clock. `updated_at` does not decrease.
    pub fn update(&mut self, updated_info: UpdateFunctionInput)
        requires
            old(self).version < u32::MAX,
        ensures
            exists|now: Timestamp| #[trigger]
                is_update_of(*old(self), *final(self), updated_info, now) && now.secs >= 0
                    && now.nanos < 1_000_000_000,
            final(self).code == updated_info.code,
            final(self).description == updated_info.description,
            opt_text(final(self).dependencies) == joined_names(updated_info.dependencies),
            final(self).status@ == StatusView::Building,
            final(self).version == old(self).version + 1,
            final(self).version > old(self).version,
            final(self).updated_at.at_or_after(old(self).updated_at),
            final(self).lang == old(self).lang,
            final(self).created_at == old(self).created_at,
    {
        let now = utc_now();
        self.update_at(updated_info, now);
        assert(is_update_of(*old(self), *self, updated_info, now));
    }

    /// Updates the record unless its version counter is exhausted; returns
    /// whether it did.
    pub fn try_update(&mut self, updated_info: UpdateFunctionInput) -> (done: bool)
        ensures
            done == (old(self).version < u32::MAX),
            !done ==> *final(self) == *old(self),
            done ==> {
                &&& final(self).code == updated_info.code
                &&& final(self).description == updated_info.description
                &&& opt_text(final(self).dependencies) == joined_names(
                    updated_info.dependencies,
                )
                &&& final(self).status@ == StatusView::Building
                &&& final(self).version == old(self).version + 1
                &&& final(self).updated_at.at_or_after(old(self).updated_at)
                &&& final(self).lang == old(self).lang
                &&& final(self).created_at == old(self).created_at
            },
    {
        if self.version < u32::MAX {
            self.update(updated_info);
            true
        } else {
            false
        }
    }

    /// The selected fields of the record.
    pub fn info(&self) -> (i: FunctionInfo)
        ensures
            i.lang == self.lang,
            opt_text(i.description) == opt_text(self.description),
            i.status@ == self.status@,
            i.created_at == self.created_at,
            i.updated_at == self.updated_at,
            i.version == self.version,
    {
        FunctionInfo {
            lang: self.lang,
            description: match &self.description {
                Some(d) => Some(d.clone()),
                None => None,
            },
            status: self.status.duplicate(),
            created_at: self.created_at,
            updated_at: self.updated_at,
            version: self.version,
        }
    }
}

/// The hash fields that make up a `FunctionInfo`.
pub open spec fn function_info_keys() -> Seq<Seq<char>> {
    seq!["lang"@, "description"@, "status"@, "created_at"@, "updated_at"@, "version"@]
}

/// The hash fields that make up a `FunctionInfo`, in the order in which
/// they are fetched.
pub fn function_info_key_list() -> (keys: Vec<String>)
    ensures
        texts(keys@) == function_info_keys(),
{
    let mut keys: Vec<String> = Vec::new();
    keys.push("lang".to_owned());
    keys.push("description".to_owned());
    keys.push("status".to_owned());
    keys.push("created_at".to_owned());
    keys.push("updated_at".to_owned());
    keys.push("version".to_owned());
    assert(texts(keys@) =~= function_info_keys());
    keys
}

/// The key of the hash that holds the function `name`.
pub open spec fn function_key(prefix: Seq<char>, name: Seq<char>) -> Seq<char> {
    prefix + "fn:"@ + name
}

/// The key of the hash that holds the function `name` under `prefix`.
pub fn key(prefix: &str, name: &str) -> (k: String)
    ensures
        k@ == function_key(prefix@, name@),
{
    concat3(prefix, "fn:", name)
}

/// Index just after the last `:` of `key`; 0 if it has none.
pub open spec fn name_start(key: Seq<char>) -> int
    decreases key.len(),
{
    if key.len() == 0 {
        0
    } else if key.last() == ':' {
        key.len() as int
    } else {
        name_start(key.drop_last())
    }
}

/// The function name in a key: what follows its last `:`.
pub open spec fn key_function_name(key: Seq<char>) -> Seq<char> {
    key.subrange(name_start(key), key.len() as int)
}

/// `name_start` is the one index that follows a `:` or is the start, and
/// that no `:` follows.
pub proof fn lemma_name_start(key: Seq<char>, start: int)
    requires
        0 <= start <= key.len(),
        start > 0 ==> key[start - 1] == ':',
        forall|j: int| start <= j < key.len() ==> key[j] != ':',
    ensures
        name_start(key) == start,
    decreases key.len(),
{
    if key.len() > 0 && key.last() != ':' {
        let front = key.drop_last();
        assert forall|j: int| start <= j < front.len() implies front[j] != ':' by {
            assert(front[j] == key[j]);
        }
        lemma_name_start(front, start);
    }
}

/// A key made from a name without `:` gives that name back.
pub proof fn lemma_key_round_trip(prefix: Seq<char>, name: Seq<char>)
    requires
        forall|j: int| 0 <= j < name.len() ==> name[j] != ':',
    ensures
        key_function_name(function_key(prefix, name)) == name,
{
    reveal_strlit("fn:");
    let k = function_key(prefix, name);
    let start: int = prefix.len() as int + 3;
    assert(k[start - 1] == ':');
    lemma_name_start(k, start);
    assert(key_function_name(k) =~= name);
}

/// The function name in a key of the store: what follows its last `:`.
pub fn function_name_of_key(key: &str) -> (name: String)
    ensures
        name@ == key_function_name(key@),
{
    let chars = chars_of(key);
    let mut start: usize = chars.len();
    while start > 0 && chars[start - 1] != ':'
        invariant
            start <= chars.len(),
            forall|j: int| start <= j < chars.len() ==> chars@[j] != ':',
        decreases start,
    {
        start -= 1;
    }
    proof {
        lemma_name_start(chars@, start as int);
    }
    string_of(&chars, start, chars.len())
}

/// The present fields of a fetched record, each with its key; nothing when
/// the first field is missing, which means that the record does not exist.
pub open spec fn present_fields(keys: Seq<Seq<char>>, values: Seq<Option<String>>, upto: int) -> Seq<
    (Seq<char>, Seq<char>),
>
    decreases upto,
{
    if upto <= 0 {
        Seq::empty()
    } else if values[upto - 1] is Some {
        present_fields(keys, values, upto - 1).push((keys[upto - 1], values[upto - 1]->0@))
    } else {
        present_fields(keys, values, upto - 1)
    }
}

/// Pairs the values fetched for the `FunctionInfo` keys with their keys,
/// leaving out missing values. Returns `None` when there is no first value.
pub fn info_fields(values: &Vec<Option<String>>) -> (r: Option<Vec<(String, String)>>)
    ensures
        r is None <==> (values@.len() == 0 || values@[0] is None),
        r matches Some(fields) ==> crate::text::pair_texts(fields@) == present_fields(
            function_info_keys(),
            values@,
            if values@.len() < 6 {
                values@.len() as int
            } else {
                6
            },
        ),
{
    if values.len() == 0 {
        return None;
    }
    if values[0].is_none() {
        return None;
    }
    let keys = function_info_key_list();
    assert(texts(keys@).len() == keys@.len());
    let n: usize = if values.len() < keys.len() {
        values.len()
    } else {
        keys.len()
    };
    let mut fields: Vec<(String, String)> = Vec::new();
    let mut i: usize = 0;
    assert(crate::text::pair_texts(fields@) =~= present_fields(function_info_keys(), values@, 0));
    while i < n
        invariant
            i <= n,
            n <= values.len(),
            n <= keys.len(),
            texts(keys@) == function_info_keys(),
            crate::text::pair_texts(fields@) == present_fields(
                function_info_keys(),
                values@,
                i as int,
            ),
        decreases n - i,
    {
        let ghost before = crate::text::pair_texts(fields@);
        match &values[i] {
            Some(v) => {
                assert(texts(keys@)[i as int] == keys@[i as int]@);
                fields.push((keys[i].clone(), v.clone()));
                assert(crate::text::pair_texts(fields@) =~= before.push(
                    (function_info_keys()[i as int], v@),
                ));
            },
            None => {},
        }
        i += 1;
    }
    Some(fields)
}

} // verus!
