//! The JSON documents that the server answers with.
use vstd::prelude::*;

verus! {

/// A JSON value. Every number that the server sends is an integer.
#[derive(Debug)]
pub enum Json {
    Null,
    Bool(bool),
    Int(i64),
    UInt(u64),
    Text(String),
    List(Vec<Json>),
    /// Members in the order in which they were set, no name twice.
    Object(Vec<(String, Json)>),
}

/// Model of [`Json`].
pub enum JsonModel {
    Null,
    Bool(bool),
    Number(int),
    Text(Seq<char>),
    List(Seq<JsonModel>),
    Object(Seq<(Seq<char>, JsonModel)>),
}

impl Json {
    /// The model of the value.
    pub open spec fn model(self) -> JsonModel
        decreases self,
    {
        match self {
            Json::Null => JsonModel::Null,
            Json::Bool(value) => JsonModel::Bool(value),
            Json::Int(value) => JsonModel::Number(value as int),
            Json::UInt(value) => JsonModel::Number(value as int),
            Json::Text(text) => JsonModel::Text(text@),
            Json::List(items) => JsonModel::List(
                Seq::new(
                    items@.len(),
                    |i: int|
                        if 0 <= i < items@.len() {
                            items@[i].model()
                        } else {
                            JsonModel::Null
                        },
                ),
            ),
            Json::Object(members) => JsonModel::Object(
                Seq::new(
                    members@.len(),
                    |i: int|
                        if 0 <= i < members@.len() {
                            (members@[i].0@, members@[i].1.model())
                        } else {
                            (Seq::empty(), JsonModel::Null)
                        },
                ),
            ),
        }
    }
}

impl DeepView for Json {
    type V = JsonModel;

    open spec fn deep_view(&self) -> JsonModel {
        self.model()
    }
}

/// The members of an object with the member `name` set: in its place where the object has one of
/// that name, and at the end otherwise.
pub open spec fn set_member(
    members: Seq<(Seq<char>, JsonModel)>,
    name: Seq<char>,
    value: JsonModel,
) -> Seq<(Seq<char>, JsonModel)>
    decreases members.len(),
{
    if members.len() == 0 {
        seq![(name, value)]
    } else if members[0].0 == name {
        members.update(0, (name, value))
    } else {
        seq![members[0]] + set_member(members.skip(1), name, value)
    }
}

/// The value of the member `name`.
pub open spec fn member(members: Seq<(Seq<char>, JsonModel)>, name: Seq<char>) -> Option<JsonModel>
    decreases members.len(),
{
    if members.len() == 0 {
        None
    } else if members[0].0 == name {
        Some(members[0].1)
    } else {
        member(members.skip(1), name)
    }
}

/// No two members have one name.
pub open spec fn names_differ(members: Seq<(Seq<char>, JsonModel)>) -> bool {
    forall|i: int, j: int|
        0 <= i < j < members.len() ==> #[trigger] members[i].0 != #[trigger] members[j].0
}

impl JsonModel {
    /// The object without members.
    pub open spec fn object() -> JsonModel {
        JsonModel::Object(Seq::empty())
    }

    /// The object with one member set.
    pub open spec fn with(self, name: Seq<char>, value: JsonModel) -> JsonModel {
        match self {
            JsonModel::Object(members) => JsonModel::Object(set_member(members, name, value)),
            _ => self,
        }
    }

    /// The object with one member set, where there is a value for it.
    pub open spec fn with_some(self, name: Seq<char>, value: Option<JsonModel>) -> JsonModel {
        match value {
            Some(value) => self.with(name, value),
            None => self,
        }
    }

    /// The value of a member.
    pub open spec fn get(self, name: Seq<char>) -> Option<JsonModel> {
        match self {
            JsonModel::Object(members) => member(members, name),
            _ => None,
        }
    }

    /// A string, or `null`.
    pub open spec fn optional_text(text: Option<Seq<char>>) -> JsonModel {
        match text {
            Some(text) => JsonModel::Text(text),
            None => JsonModel::Null,
        }
    }

    /// A list of strings.
    pub open spec fn texts(items: Seq<Seq<char>>) -> JsonModel {
        JsonModel::List(Seq::new(items.len(), |i: int| JsonModel::Text(items[i])))
    }
}

impl Clone for Json {
    fn clone(&self) -> (copy: Json)
        ensures
            copy.deep_view() == self.deep_view(),
        decreases self,
    {
        match self {
            Json::Null => Json::Null,
            Json::Bool(value) => Json::Bool(*value),
            Json::Int(value) => Json::Int(*value),
            Json::UInt(value) => Json::UInt(*value),
            Json::Text(text) => Json::Text(text.clone()),
            Json::List(items) => {
                let mut list: Vec<Json> = Vec::new();
                for i in 0..items.len()
                    invariant
                        *self matches Json::List(own) && own == *items,
                        list@.len() == i,
                        forall|j: int| 0 <= j < i ==> (#[trigger] list@[j]).model() == items@[j].model(),
                {
                    assert(decreases_to!(*self => items@[i as int]));
                    list.push(items[i].clone());
                }
                let copy = Json::List(list);
                assert(copy.model()->List_0 =~= self.model()->List_0);
                copy
            },
            Json::Object(members) => {
                let mut list: Vec<(String, Json)> = Vec::new();
                for i in 0..members.len()
                    invariant
                        *self matches Json::Object(own) && own == *members,
                        list@.len() == i,
                        forall|j: int|
                            0 <= j < i ==> (#[trigger] list@[j]).0@ == members@[j].0@
                                && list@[j].1.model() == members@[j].1.model(),
                {
                    assert(decreases_to!(*self => members@[i as int].1));
                    list.push((members[i].0.clone(), members[i].1.clone()));
                }
                let copy = Json::Object(list);
                assert(copy.model()->Object_0 =~= self.model()->Object_0);
                copy
            },
        }
    }
}

/// What `serde_json` reads in a text as a list of strings, if it is one.
pub uninterp spec fn json_string_list(text: Seq<char>) -> Option<Seq<Seq<char>>>;

/// Calls `serde_json::from_str` for a `Vec<String>`.
///
/// Claimed of it: what it gives depends on the text alone, and is named [`json_string_list`]; the
/// text `[]` is the empty list. What other texts give is the grammar of JSON and is not spelled
/// out here.
#[verifier::external_body]
pub(crate) fn parse_string_list(text: &str) -> (list: Option<Vec<String>>)
    ensures
        list.deep_view() == json_string_list(text@),
        text@ == "[]"@ ==> list.deep_view() == Some(Seq::<Seq<char>>::empty()),
{
    serde_json::from_str(text).ok()
}

/// The members of an object, each by its model.
pub open spec fn members_model(members: Seq<(String, Json)>) -> Seq<(Seq<char>, JsonModel)> {
    Seq::new(members.len(), |i: int| (members[i].0@, members[i].1.model()))
}

/// Setting a member that stands at `at` and nowhere before, or nowhere at all (`at` is the end).
proof fn lemma_set_member_at(
    members: Seq<(Seq<char>, JsonModel)>,
    name: Seq<char>,
    value: JsonModel,
    at: int,
)
    requires
        0 <= at <= members.len(),
        forall|i: int| 0 <= i < at ==> (#[trigger] members[i]).0 != name,
        at < members.len() ==> members[at].0 == name,
    ensures
        set_member(members, name, value) == if at < members.len() {
            members.update(at, (name, value))
        } else {
            members.push((name, value))
        },
    decreases members.len(),
{
    if members.len() == 0 {
        assert(members.push((name, value)) =~= seq![(name, value)]);
    } else if at > 0 {
        assert(members[0].0 != name);
        let rest = members.skip(1);
        assert forall|i: int| 0 <= i < at - 1 implies (#[trigger] rest[i]).0 != name by {
            assert(rest[i] == members[i + 1]);
        }
        lemma_set_member_at(rest, name, value, at - 1);
        if at < members.len() {
            assert(seq![members[0]] + rest.update(at - 1, (name, value)) =~= members.update(
                at,
                (name, value),
            ));
        } else {
            assert(seq![members[0]] + rest.push((name, value)) =~= members.push((name, value)));
        }
    }
}

/// A member that was set has the value that it was set to, and no other member changed.
pub broadcast proof fn law_set_then_get(
    document: JsonModel,
    name: Seq<char>,
    value: JsonModel,
    other: Seq<char>,
)
    requires
        document is Object,
    ensures
        (#[trigger] document.with(name, value).get(other)) == if other == name {
            Some(value)
        } else {
            document.get(other)
        },
{
    lemma_set_then_get(document->Object_0, name, value, other);
}

/// A member that was set where there was a value for it has that value, or stayed as it was, and no
/// other member changed.
pub broadcast proof fn law_set_some_then_get(
    document: JsonModel,
    name: Seq<char>,
    value: Option<JsonModel>,
    other: Seq<char>,
)
    requires
        document is Object,
    ensures
        (#[trigger] document.with_some(name, value).get(other)) == if other == name && value is Some {
            value
        } else {
            document.get(other)
        },
{
    if let Some(value) = value {
        law_set_then_get(document, name, value, other);
    }
}

proof fn lemma_set_then_get(
    members: Seq<(Seq<char>, JsonModel)>,
    name: Seq<char>,
    value: JsonModel,
    other: Seq<char>,
)
    ensures
        member(set_member(members, name, value), name) == Some(value),
        other != name ==> member(set_member(members, name, value), other) == member(members, other),
    decreases members.len(),
{
    let set = set_member(members, name, value);
    if members.len() == 0 {
        reveal_with_fuel(member, 2);
    } else if members[0].0 == name {
        assert(set.skip(1) =~= members.skip(1));
    } else {
        lemma_set_then_get(members.skip(1), name, value, other);
        assert(set.skip(1) =~= set_member(members.skip(1), name, value));
        assert(set[0] == members[0]);
    }
}

/// The first place of a name, or the end.
proof fn lemma_first_place(members: Seq<(Seq<char>, JsonModel)>, name: Seq<char>) -> (at: int)
    ensures
        0 <= at <= members.len(),
        forall|i: int| 0 <= i < at ==> (#[trigger] members[i]).0 != name,
        at < members.len() ==> members[at].0 == name,
    decreases members.len(),
{
    if members.len() == 0 || members[0].0 == name {
        0
    } else {
        let at = lemma_first_place(members.skip(1), name) + 1;
        assert forall|i: int| 0 <= i < at implies (#[trigger] members[i]).0 != name by {
            if i > 0 {
                assert(members.skip(1)[i - 1] == members[i]);
            }
        }
        at
    }
}

/// Setting members never gives an object two members of one name.
pub proof fn law_names_stay_different(
    members: Seq<(Seq<char>, JsonModel)>,
    name: Seq<char>,
    value: JsonModel,
)
    requires
        names_differ(members),
    ensures
        names_differ(set_member(members, name, value)),
{
    let at = lemma_first_place(members, name);
    lemma_set_member_at(members, name, value, at);
    let set = set_member(members, name, value);
    assert forall|i: int, j: int| 0 <= i < j < set.len() implies #[trigger] set[i].0
        != #[trigger] set[j].0 by {
        if at < members.len() {
            assert(set[i].0 == members[i].0 && set[j].0 == members[j].0);
        } else if j < members.len() {
            assert(set[i].0 == members[i].0 && set[j].0 == members[j].0);
        } else {
            assert(set[i] == members[i]);
        }
    }
}

impl Json {
    /// A string.
    pub fn text(text: &str) -> (json: Json)
        ensures
            json.deep_view() == JsonModel::Text(text@),
    {
        Json::Text(text.to_string())
    }

    /// A string, or `null`.
    pub fn optional_text(text: &Option<String>) -> (json: Json)
        ensures
            json.deep_view() == JsonModel::optional_text(text.deep_view()),
    {
        match text {
            Some(text) => Json::Text(text.clone()),
            None => Json::Null,
        }
    }

    /// A list of strings.
    pub fn texts(items: &Vec<String>) -> (json: Json)
        ensures
            json.deep_view() == JsonModel::texts(items.deep_view()),
    {
        let mut list: Vec<Json> = Vec::new();
        for i in 0..items.len()
            invariant
                list@.len() == i,
                forall|j: int| 0 <= j < i ==> (#[trigger] list@[j]).model() == JsonModel::Text(items@[j]@),
        {
            list.push(Json::Text(items[i].clone()));
        }
        let json = Json::List(list);
        assert(json.model()->List_0 =~= JsonModel::texts(items.deep_view())->List_0);
        json
    }

    /// A list of copies of values.
    pub fn list(items: &Vec<Json>) -> (json: Json)
        ensures
            json.deep_view() == JsonModel::List(items.deep_view()),
    {
        let mut list: Vec<Json> = Vec::new();
        for i in 0..items.len()
            invariant
                list@.len() == i,
                forall|j: int| 0 <= j < i ==> (#[trigger] list@[j]).model() == items@[j].model(),
        {
            list.push(items[i].clone());
        }
        let json = Json::List(list);
        assert(json.model()->List_0 =~= items.deep_view());
        json
    }

    /// The object without members.
    pub fn object() -> (json: Json)
        ensures
            json is Object,
            json.deep_view() == JsonModel::object(),
    {
        let json = Json::Object(Vec::new());
        assert(json.model()->Object_0 =~= Seq::empty());
        json
    }

    /// Sets a member of an object.
    pub fn set(&mut self, name: &str, value: Json)
        requires
            *old(self) is Object,
        ensures
            *final(self) is Object,
            final(self).deep_view() == old(self).deep_view().with(name@, value.deep_view()),
    {
        let ghost before = *self;
        if let Json::Object(members) = self {
            let ghost models = members_model(members@);
            let ghost value_model = value.model();
            assert(before.model()->Object_0 =~= models);
            let mut at: usize = 0;
            while at < members.len() && !crate::text::same_text(members[at].0.as_str(), name)
                invariant
                    at <= members@.len(),
                    models == members_model(members@),
                    forall|i: int| 0 <= i < at ==> (#[trigger] models[i]).0 != name@,
                decreases members@.len() - at,
            {
                at = at + 1;
            }
            proof {
                lemma_set_member_at(models, name@, value_model, at as int);
            }
            if at < members.len() {
                members[at] = (name.to_string(), value);
                assert(members_model(members@) =~= models.update(at as int, (name@, value_model)));
            } else {
                members.push((name.to_string(), value));
                assert(members_model(members@) =~= models.push((name@, value_model)));
            }
            assert(members_model(members@) == set_member(models, name@, value_model));
        }
        proof {
            assert(self.model()->Object_0 =~= members_model(self->Object_0@));
        }
    }

    /// Sets a member of an object, where there is a value for it.
    pub fn set_some(&mut self, name: &str, value: Option<Json>)
        requires
            *old(self) is Object,
        ensures
            *final(self) is Object,
            final(self).deep_view() == old(self).deep_view().with_some(name@, value.deep_view()),
    {
        if let Some(value) = value {
            self.set(name, value);
        }
    }
}

/// Setting a member overwrites the first of that name in its place, or goes behind all others.
pub proof fn law_members_are_set(
    members: Seq<(Seq<char>, JsonModel)>,
    name: Seq<char>,
    value: JsonModel,
    at: int,
)
    requires
        0 <= at <= members.len(),
        forall|i: int| 0 <= i < at ==> (#[trigger] members[i]).0 != name,
        at < members.len() ==> members[at].0 == name,
    ensures
        JsonModel::Object(members).with(name, value) == JsonModel::Object(
            if at < members.len() {
                members.update(at, (name, value))
            } else {
                members.push((name, value))
            },
        ),
        JsonModel::Object(members).with_some(name, Some(value)) == JsonModel::Object(members).with(
            name,
            value,
        ),
        JsonModel::Object(members).with_some(name, None) == JsonModel::Object(members),
{
    lemma_set_member_at(members, name, value, at);
}

/// Reading a member gives the first of that name, and nothing where there is none.
pub proof fn law_members_are_read(
    members: Seq<(Seq<char>, JsonModel)>,
    name: Seq<char>,
    at: int,
)
    requires
        0 <= at <= members.len(),
        forall|i: int| 0 <= i < at ==> (#[trigger] members[i]).0 != name,
        at < members.len() ==> members[at].0 == name,
    ensures
        JsonModel::Object(members).get(name) == if at < members.len() {
            Some(members[at].1)
        } else {
            None
        },
    decreases at,
{
    if at > 0 {
        let rest = members.skip(1);
        assert(members[0].0 != name);
        assert forall|i: int| 0 <= i < at - 1 implies (#[trigger] rest[i]).0 != name by {
            assert(rest[i] == members[i + 1]);
        }
        law_members_are_read(rest, name, at - 1);
    }
}

/// A new document has no members; an optional text is the text or `null`; a list of texts holds
/// the texts in their order.
pub proof fn law_plain_documents(text: Seq<char>, items: Seq<Seq<char>>)
    ensures
        JsonModel::object() == JsonModel::Object(Seq::empty()),
        JsonModel::optional_text(Some(text)) == JsonModel::Text(text),
        JsonModel::optional_text(None) == JsonModel::Null,
        JsonModel::texts(items) matches JsonModel::List(list) && {
            &&& list.len() == items.len()
            &&& forall|i: int| 0 <= i < items.len() ==> #[trigger] list[i] == JsonModel::Text(
                items[i],
            )
        },
{
}

} // verus!
