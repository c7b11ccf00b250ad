use vstd::prelude::*;
use vstd::string::*;

use crate::json::{first_key_at, lemma_first_key_unique, lemma_object_model, member_get, members_model, Json, JsonValue};
use crate::text::str_eq;

verus! {

/// Why a set of arguments does not fit an input schema.
pub enum ArgProblem {
    /// A field that the schema lists under `required` is absent.
    Missing(String),
    /// An argument that the schema does not list, where it allows no others.
    Unexpected(String),
    /// An argument whose JSON type differs from the declared `type`.
    WrongType(String, String),
}

/// The model of an `ArgProblem`.
pub enum ArgProblemModel {
    Missing(Seq<char>),
    Unexpected(Seq<char>),
    WrongType(Seq<char>, Seq<char>),
}

impl ArgProblem {
    pub open spec fn model(&self) -> ArgProblemModel {
        match self {
            ArgProblem::Missing(f) => ArgProblemModel::Missing(f@),
            ArgProblem::Unexpected(n) => ArgProblemModel::Unexpected(n@),
            ArgProblem::WrongType(n, e) => ArgProblemModel::WrongType(n@, e@),
        }
    }
}

/// The object members hold `key`.
pub open spec fn has_key(members: Seq<(Seq<char>, Json)>, key: Seq<char>) -> bool {
    member_get(members, key) is Some
}

/// Whether a value has the JSON type that a schema's `type` names; an
/// unknown type name accepts every value.
pub open spec fn type_matches(expected: Seq<char>, v: Json) -> bool {
    if expected == "string"@ {
        matches!(v, Json::Str(_))
    } else if expected == "number"@ {
        matches!(v, Json::Number(_))
    } else if expected == "boolean"@ {
        matches!(v, Json::Bool(_))
    } else if expected == "object"@ {
        matches!(v, Json::Object(_))
    } else if expected == "array"@ {
        matches!(v, Json::Array(_))
    } else {
        true
    }
}

/// The entries of the schema's `required` array (none where it has no such
/// array).
pub open spec fn required_list(schema: Json) -> Seq<Json> {
    match schema.get("required"@) {
        Some(Json::Array(items)) => items,
        _ => Seq::empty(),
    }
}

/// The members of the schema's `properties` object (none where it has no
/// such object).
pub open spec fn properties_of(schema: Json) -> Seq<(Seq<char>, Json)> {
    match schema.get("properties"@) {
        Some(Json::Object(m)) => m,
        _ => Seq::empty(),
    }
}

/// Whether the schema admits arguments it does not list: its
/// `additionalProperties` boolean, `true` where absent.
pub open spec fn additional_allowed(schema: Json) -> bool {
    match schema.bool_at("additionalProperties"@) {
        Some(b) => b,
        None => true,
    }
}

/// The first required field, in the schema's order, that the arguments lack.
/// Entries that are not strings are passed over, and so is `channel` where
/// `skip_channel` holds.
pub open spec fn first_missing(required: Seq<Json>, args: Seq<(Seq<char>, Json)>, skip_channel: bool) -> Option<Seq<char>>
    decreases required.len(),
{
    if required.len() == 0 {
        None
    } else {
        match required[0] {
            Json::Str(field) => {
                if (skip_channel && field == "channel"@) || has_key(args, field) {
                    first_missing(required.drop_first(), args, skip_channel)
                } else {
                    Some(field)
                }
            },
            _ => first_missing(required.drop_first(), args, skip_channel),
        }
    }
}

/// The first argument, in the arguments' order, that the schema's
/// properties reject: one it does not list where `closed` holds, or one whose
/// type differs from the declared string `type`.
pub open spec fn first_bad_arg(props: Seq<(Seq<char>, Json)>, args: Seq<(Seq<char>, Json)>, closed: bool) -> Option<ArgProblemModel>
    decreases args.len(),
{
    if args.len() == 0 {
        None
    } else {
        let name = args[0].0;
        let value = args[0].1;
        match member_get(props, name) {
            None => {
                if closed {
                    Some(ArgProblemModel::Unexpected(name))
                } else {
                    first_bad_arg(props, args.drop_first(), closed)
                }
            },
            Some(prop) => {
                match prop.str_at("type"@) {
                    Some(expected) => {
                        if type_matches(expected, value) {
                            first_bad_arg(props, args.drop_first(), closed)
                        } else {
                            Some(ArgProblemModel::WrongType(name, expected))
                        }
                    },
                    None => first_bad_arg(props, args.drop_first(), closed),
                }
            },
        }
    }
}

/// What checking the arguments against the schema finds first: a missing
/// required field, else a rejected argument, else nothing.
pub open spec fn spec_check_args(schema: Json, args: Seq<(Seq<char>, Json)>, skip_channel: bool, honour_additional: bool) -> Option<ArgProblemModel> {
    match first_missing(required_list(schema), args, skip_channel) {
        Some(field) => Some(ArgProblemModel::Missing(field)),
        None => first_bad_arg(
            properties_of(schema),
            args,
            honour_additional && !additional_allowed(schema),
        ),
    }
}

proof fn lemma_first_missing_none(required: Seq<Json>, args: Seq<(Seq<char>, Json)>, skip_channel: bool)
    requires
        first_missing(required, args, skip_channel) is None,
    ensures
        forall|i: int| 0 <= i < required.len() && (#[trigger] required[i]) is Str ==> {
            let f = required[i]->Str_0;
            (skip_channel && f == "channel"@) || has_key(args, f)
        },
    decreases required.len(),
{
    if required.len() > 0 {
        lemma_first_missing_none(required.drop_first(), args, skip_channel);
        assert forall|i: int| 0 <= i < required.len() && (#[trigger] required[i]) is Str implies {
            let f = required[i]->Str_0;
            (skip_channel && f == "channel"@) || has_key(args, f)
        } by {
            if i > 0 {
                assert(required[i] == required.drop_first()[i - 1]);
            }
        }
    }
}

proof fn lemma_first_bad_arg_none(props: Seq<(Seq<char>, Json)>, args: Seq<(Seq<char>, Json)>, closed: bool)
    requires
        first_bad_arg(props, args, closed) is None,
    ensures
        forall|i: int| 0 <= i < args.len() ==> match member_get(props, (#[trigger] args[i]).0) {
            None => !closed,
            Some(prop) => match prop.str_at("type"@) {
                Some(t) => type_matches(t, args[i].1),
                None => true,
            },
        },
    decreases args.len(),
{
    if args.len() > 0 {
        lemma_first_bad_arg_none(props, args.drop_first(), closed);
        assert forall|i: int| 0 <= i < args.len() implies match member_get(props, (#[trigger] args[i]).0) {
            None => !closed,
            Some(prop) => match prop.str_at("type"@) {
                Some(t) => type_matches(t, args[i].1),
                None => true,
            },
        } by {
            if i > 0 {
                assert(args[i] == args.drop_first()[i - 1]);
            }
        }
    }
}

/// Arguments that the checks accept fit the schema: every required field is
/// present (but `channel` where it is exempted), every argument that the
/// schema lists has the declared type, and where the schema is closed no
/// other argument is present.
pub proof fn law_accepted_arguments_fit(schema: Json, args: Seq<(Seq<char>, Json)>, skip_channel: bool, honour_additional: bool)
    requires
        spec_check_args(schema, args, skip_channel, honour_additional) is None,
    ensures
        forall|i: int| 0 <= i < required_list(schema).len() && (#[trigger] required_list(schema)[i]) is Str ==> {
            let f = required_list(schema)[i]->Str_0;
            (skip_channel && f == "channel"@) || has_key(args, f)
        },
        forall|i: int| 0 <= i < args.len() ==> match member_get(properties_of(schema), (#[trigger] args[i]).0) {
            None => !(honour_additional && !additional_allowed(schema)),
            Some(prop) => match prop.str_at("type"@) {
                Some(t) => type_matches(t, args[i].1),
                None => true,
            },
        },
{
    lemma_first_missing_none(required_list(schema), args, skip_channel);
    lemma_first_bad_arg_none(properties_of(schema), args, honour_additional && !additional_allowed(schema));
}

proof fn lemma_first_missing_when_present(required: Seq<Json>, args: Seq<(Seq<char>, Json)>, skip_channel: bool)
    requires
        forall|i: int| 0 <= i < required.len() && (#[trigger] required[i]) is Str ==> {
            let f = required[i]->Str_0;
            (skip_channel && f == "channel"@) || has_key(args, f)
        },
    ensures
        first_missing(required, args, skip_channel) is None,
    decreases required.len(),
{
    if required.len() > 0 {
        let rest = required.drop_first();
        assert forall|i: int| 0 <= i < rest.len() && (#[trigger] rest[i]) is Str implies {
            let f = rest[i]->Str_0;
            (skip_channel && f == "channel"@) || has_key(args, f)
        } by {
            assert(rest[i] == required[i + 1]);
        }
        lemma_first_missing_when_present(rest, args, skip_channel);
    }
}

proof fn lemma_first_bad_arg_when_fitting(props: Seq<(Seq<char>, Json)>, args: Seq<(Seq<char>, Json)>, closed: bool)
    requires
        forall|i: int| 0 <= i < args.len() ==> match member_get(props, (#[trigger] args[i]).0) {
            None => !closed,
            Some(prop) => match prop.str_at("type"@) {
                Some(t) => type_matches(t, args[i].1),
                None => true,
            },
        },
    ensures
        first_bad_arg(props, args, closed) is None,
    decreases args.len(),
{
    if args.len() > 0 {
        let rest = args.drop_first();
        assert forall|i: int| 0 <= i < rest.len() implies match member_get(props, (#[trigger] rest[i]).0) {
            None => !closed,
            Some(prop) => match prop.str_at("type"@) {
                Some(t) => type_matches(t, rest[i].1),
                None => true,
            },
        } by {
            assert(rest[i] == args[i + 1]);
        }
        lemma_first_bad_arg_when_fitting(props, rest, closed);
    }
}

/// Arguments that fit the schema are accepted: the checks refuse exactly the
/// arguments that `law_accepted_arguments_fit` rules out.
pub proof fn law_fitting_arguments_are_accepted(schema: Json, args: Seq<(Seq<char>, Json)>, skip_channel: bool, honour_additional: bool)
    requires
        forall|i: int| 0 <= i < required_list(schema).len() && (#[trigger] required_list(schema)[i]) is Str ==> {
            let f = required_list(schema)[i]->Str_0;
            (skip_channel && f == "channel"@) || has_key(args, f)
        },
        forall|i: int| 0 <= i < args.len() ==> match member_get(properties_of(schema), (#[trigger] args[i]).0) {
            None => !(honour_additional && !additional_allowed(schema)),
            Some(prop) => match prop.str_at("type"@) {
                Some(t) => type_matches(t, args[i].1),
                None => true,
            },
        },
    ensures
        spec_check_args(schema, args, skip_channel, honour_additional) is None,
{
    lemma_first_missing_when_present(required_list(schema), args, skip_channel);
    lemma_first_bad_arg_when_fitting(properties_of(schema), args, honour_additional && !additional_allowed(schema));
}

/// Whether the members hold `key`.
pub fn contains_key(members: &Vec<(String, JsonValue)>, key: &str) -> (r: bool)
    ensures
        r == has_key(members_model(members@), key@),
{
    let ghost m = members_model(members@);
    let mut i: usize = 0;
    while i < members.len()
        invariant
            m == members_model(members@),
            i <= members@.len(),
            forall|j: int| 0 <= j < i ==> m[j].0 != key@,
        decreases members@.len() - i,
    {
        if str_eq(members[i].0.as_str(), key) {
            assert(first_key_at(m, key@, i as int));
            return true;
        }
        i = i + 1;
    }
    assert(!exists|c: int| #[trigger] first_key_at(m, key@, c));
    false
}

/// The value under `key` in an object's members.
pub fn member_lookup<'a>(members: &'a Vec<(String, JsonValue)>, key: &str) -> (r: Option<&'a JsonValue>)
    ensures
        match r {
            Some(v) => member_get(members_model(members@), key@) == Some(v.model()),
            None => member_get(members_model(members@), key@) is None,
        },
{
    let ghost m = members_model(members@);
    let mut i: usize = 0;
    while i < members.len()
        invariant
            m == members_model(members@),
            i <= members@.len(),
            forall|j: int| 0 <= j < i ==> m[j].0 != key@,
        decreases members@.len() - i,
    {
        if str_eq(members[i].0.as_str(), key) {
            assert(first_key_at(m, key@, i as int));
            proof {
                let c = choose|c: int| #[trigger] first_key_at(m, key@, c);
                lemma_first_key_unique(m, key@, c, i as int);
            }
            return Some(&members[i].1);
        }
        i = i + 1;
    }
    assert(!exists|c: int| #[trigger] first_key_at(m, key@, c));
    None
}

/// Whether `v` has the JSON type that `expected` names.
pub fn value_has_type(expected: &str, v: &JsonValue) -> (r: bool)
    ensures
        r == type_matches(expected@, v.model()),
{
    if str_eq(expected, "string") {
        matches!(v, JsonValue::Str(_))
    } else if str_eq(expected, "number") {
        matches!(v, JsonValue::Number(_))
    } else if str_eq(expected, "boolean") {
        matches!(v, JsonValue::Bool(_))
    } else if str_eq(expected, "object") {
        matches!(v, JsonValue::Object(_))
    } else if str_eq(expected, "array") {
        matches!(v, JsonValue::Array(_))
    } else {
        true
    }
}

/// Checks arguments against an input schema: the `required` fields first,
/// in the schema's order, then each argument in order against `properties`
/// (and against `additionalProperties` where `honour_additional` holds).
pub fn check_args(schema: &JsonValue, args: &Vec<(String, JsonValue)>, skip_channel: bool, honour_additional: bool) -> (r: Result<(), ArgProblem>)
    ensures
        match r {
            Ok(()) => spec_check_args(schema.model(), members_model(args@), skip_channel, honour_additional) is None,
            Err(p) => spec_check_args(schema.model(), members_model(args@), skip_channel, honour_additional) == Some(p.model()),
        },
{
    let ghost am = members_model(args@);
    // required fields
    match schema.get("required") {
        Some(JsonValue::Array(required)) => {
            let ghost rq = required_list(schema.model());
            assert(rq =~= Seq::new(required@.len(), |k: int| if 0 <= k < required@.len() { required@[k].model() } else { Json::Null }));
            let n = required.len();
            let mut i: usize = 0;
            assert(rq.subrange(0, n as int) =~= rq);
            while i < n
                invariant
                    n == required@.len(),
                    rq.len() == n,
                    forall|k: int| 0 <= k < n ==> rq[k] == (#[trigger] required@[k]).model(),
                    i <= n,
                    first_missing(rq, am, skip_channel) == first_missing(rq.subrange(i as int, n as int), am, skip_channel),
                    am == members_model(args@),
                    rq == required_list(schema.model()),
                decreases n - i,
            {
                assert(rq.subrange(i as int, n as int).drop_first() =~= rq.subrange(i + 1, n as int));
                assert(rq.subrange(i as int, n as int)[0] == rq[i as int]);
                match &required[i] {
                    JsonValue::Str(field) => {
                        let skip = skip_channel && str_eq(field.as_str(), "channel");
                        if !skip && !contains_key(args, field.as_str()) {
                            return Err(ArgProblem::Missing(field.clone()));
                        }
                    },
                    _ => {},
                }
                i = i + 1;
            }
            assert(rq.subrange(n as int, n as int) =~= Seq::<Json>::empty());
        },
        _ => {
            assert(required_list(schema.model()) =~= Seq::<Json>::empty());
        },
    }
    // properties
    let empty: Vec<(String, JsonValue)> = Vec::new();
    let props: &Vec<(String, JsonValue)> = match schema.get("properties") {
        Some(JsonValue::Object(m)) => {
            proof { lemma_object_model(*m); }
            m
        },
        _ => {
            assert(members_model(empty@) =~= Seq::<(Seq<char>, Json)>::empty());
            &empty
        },
    };
    assert(members_model(props@) == properties_of(schema.model()));
    let allowed = match schema.bool_at("additionalProperties") {
        Some(b) => b,
        None => true,
    };
    let closed = honour_additional && !allowed;
    let ghost pm = members_model(props@);
    let n = args.len();
    let mut i: usize = 0;
    assert(am.subrange(0, n as int) =~= am);
    while i < n
        invariant
            n == args@.len(),
            am == members_model(args@),
            pm == members_model(props@),
            i <= n,
            first_bad_arg(pm, am, closed) == first_bad_arg(pm, am.subrange(i as int, n as int), closed),
            first_missing(required_list(schema.model()), am, skip_channel) is None,
            closed == (honour_additional && !additional_allowed(schema.model())),
            pm == properties_of(schema.model()),
        decreases n - i,
    {
        assert(am.subrange(i as int, n as int).drop_first() =~= am.subrange(i + 1, n as int));
        assert(am.subrange(i as int, n as int)[0] == am[i as int]);
        let name = args[i].0.as_str();
        let value = &args[i].1;
        match member_lookup(props, name) {
            None => {
                if closed {
                    return Err(ArgProblem::Unexpected(args[i].0.clone()));
                }
            },
            Some(prop) => {
                match prop.str_at("type") {
                    Some(expected) => {
                        if !value_has_type(expected, value) {
                            return Err(ArgProblem::WrongType(args[i].0.clone(), String::from_str(expected)));
                        }
                    },
                    None => {},
                }
            },
        }
        i = i + 1;
    }
    assert(am.subrange(n as int, n as int) =~= Seq::<(Seq<char>, Json)>::empty());
    Ok(())
}

/// The type check accepts, for each JSON type name, exactly the values of
/// that kind (`"object"` only objects, `"array"` only arrays, and so on), and
/// every value for a type name it does not know.
pub proof fn law_type_check_by_kind(expected: Seq<char>, v: Json)
    ensures
        type_matches("string"@, v) <==> v is Str,
        type_matches("number"@, v) <==> v is Number,
        type_matches("boolean"@, v) <==> v is Bool,
        type_matches("object"@, v) <==> v is Object,
        type_matches("array"@, v) <==> v is Array,
        expected != "string"@ && expected != "number"@ && expected != "boolean"@
            && expected != "object"@ && expected != "array"@ ==> type_matches(expected, v),
{
    reveal_strlit("string");
    assert("string"@.len() == 6);
    reveal_strlit("number");
    assert("number"@.len() == 6);
    reveal_strlit("boolean");
    assert("boolean"@.len() == 7);
    reveal_strlit("object");
    assert("object"@.len() == 6);
    reveal_strlit("array");
    assert("array"@.len() == 5);
    assert("string"@[0] != "number"@[0]);
    assert("string"@[0] != "object"@[0]);
    assert("number"@[0] != "object"@[0]);
}

} // verus!
