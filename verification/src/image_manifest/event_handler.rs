//! Event handlers of an app: one of two well-known hook names, and the
//! command line to run for it.

use vstd::prelude::*;

use crate::json::{spec_lookup, Json};
use crate::util::{
    arr_err_rel, arr_valid, arr_value_rel, array_of, ent_keys, errors_empty, is_leaf_msg, key_if,
    leaf, lemma_obj_err_not_empty, obj_err_rel, req_err_rel, req_valid, req_value_rel, required,
    Errors, Parseable, ParseResult, StringWrapper,
};

verus! {

/// The two hook points a handler can attach to, matched exactly.
pub enum EventHandlerName {
    PreStart,
    PostStop,
}

impl EventHandlerName {
    pub open spec fn spec_of(s: Seq<char>) -> EventHandlerName {
        if s == "pre-start"@ {
            EventHandlerName::PreStart
        } else {
            EventHandlerName::PostStop
        }
    }
}

impl StringWrapper for EventHandlerName {
    open spec fn str_valid(s: Seq<char>) -> bool {
        s == "pre-start"@ || s == "post-stop"@
    }

    open spec fn str_value_rel(s: Seq<char>, v: EventHandlerName) -> bool {
        v == EventHandlerName::spec_of(s)
    }

    open spec fn str_err_rel(s: Seq<char>, e: Errors) -> bool {
        is_leaf_msg(e, "must be a valid event handler name."@)
    }

    fn from_string(s: &String) -> (r: ParseResult<EventHandlerName>) {
        if *s == "pre-start".to_owned() {
            Ok(EventHandlerName::PreStart)
        } else if *s == "post-stop".to_owned() {
            Ok(EventHandlerName::PostStop)
        } else {
            Err(leaf("must be a valid event handler name."))
        }
    }
}

/// An argv list: a JSON array of strings, every element validated on its own.
pub fn exec_from_json(json: &Json) -> (r: ParseResult<Vec<String>>)
    ensures
        match r {
            Ok(vs) => arr_valid::<String>(*json) && arr_value_rel::<String>(*json, vs@),
            Err(e) => !arr_valid::<String>(*json) && !errors_empty(e) && arr_err_rel::<String>(
                *json,
                e,
            ),
        },
{
    array_of::<String>(json)
}

// ---------------------------------------------------------------------------
// The event-handler object.
// ---------------------------------------------------------------------------
pub open spec fn eh_exec_valid(fields: Seq<(String, Json)>) -> bool {
    match spec_lookup(fields, "exec"@) {
        Some(j) => arr_valid::<String>(j),
        None => false,
    }
}

pub open spec fn eh_exec_value_rel(fields: Seq<(String, Json)>, vs: Seq<String>) -> bool {
    match spec_lookup(fields, "exec"@) {
        Some(j) => arr_value_rel::<String>(j, vs),
        None => false,
    }
}

pub open spec fn eh_exec_err(fields: Seq<(String, Json)>, e: Errors) -> bool {
    match spec_lookup(fields, "exec"@) {
        Some(j) => arr_err_rel::<String>(j, e),
        None => is_leaf_msg(e, "must be defined"@),
    }
}

pub open spec fn event_handler_fields_valid(fields: Seq<(String, Json)>) -> bool {
    &&& req_valid::<EventHandlerName>(fields, "name"@)
    &&& eh_exec_valid(fields)
}

pub open spec fn event_handler_bad_keys(fields: Seq<(String, Json)>) -> Seq<Seq<char>> {
    key_if("name"@, !req_valid::<EventHandlerName>(fields, "name"@)) + key_if(
        "exec"@,
        !eh_exec_valid(fields),
    )
}

pub open spec fn event_handler_field_err(
    fields: Seq<(String, Json)>,
    k: Seq<char>,
    e: Errors,
) -> bool {
    if k == "name"@ {
        req_err_rel::<EventHandlerName>(fields, k, e)
    } else if k == "exec"@ {
        eh_exec_err(fields, e)
    } else {
        false
    }
}

proof fn keys_distinct()
    ensures
        "name"@ != "exec"@,
{
    reveal_strlit("name");
    reveal_strlit("exec");
    assert("name"@[0] == 'n');
    assert("exec"@[0] == 'e');
}

pub struct EventHandler {
    pub exec_args: Vec<String>,
    pub name: EventHandlerName,
}

impl Parseable for EventHandler {
    open spec fn json_valid(j: Json) -> bool {
        match j {
            Json::Object(fields) => event_handler_fields_valid(fields@),
            _ => false,
        }
    }

    open spec fn value_rel(j: Json, v: EventHandler) -> bool {
        match j {
            Json::Object(fields) => {
                &&& req_value_rel::<EventHandlerName>(fields@, "name"@, v.name)
                &&& eh_exec_value_rel(fields@, v.exec_args@)
            },
            _ => false,
        }
    }

    open spec fn err_rel(j: Json, e: Errors) -> bool {
        match j {
            Json::Object(fields) => obj_err_rel(
                e,
                event_handler_bad_keys(fields@),
                |k: Seq<char>, se: Errors| event_handler_field_err(fields@, k, se),
            ),
            _ => is_leaf_msg(e, "must be an object"@),
        }
    }

    fn from_json(json: &Json) -> (r: ParseResult<EventHandler>) {
        match json {
            Json::Object(fields) => {
                proof {
                    keys_distinct();
                }
                let mut errs: Vec<(String, Errors)> = Vec::new();
                let name = match required::<EventHandlerName>(fields, &"name".to_owned()) {
                    Ok(v) => Some(v),
                    Err(e) => {
                        errs.push(("name".to_owned(), e));
                        None
                    },
                };
                let exec_args = match crate::json::lookup(fields, &"exec".to_owned()) {
                    Some(j) => match exec_from_json(j) {
                        Ok(vs) => Some(vs),
                        Err(e) => {
                            errs.push(("exec".to_owned(), e));
                            None
                        },
                    },
                    None => {
                        errs.push(("exec".to_owned(), leaf("must be defined")));
                        None
                    },
                };
                if errs.len() == 0 {
                    match (name, exec_args) {
                        (Some(n), Some(x)) => Ok(EventHandler { exec_args: x, name: n }),
                        _ => vstd::pervasive::unreached(),
                    }
                } else {
                    proof {
                        assert(ent_keys(errs@) =~= event_handler_bad_keys(fields@));
                        lemma_obj_err_not_empty(
                            Errors::Object(errs),
                            event_handler_bad_keys(fields@),
                            |k: Seq<char>, se: Errors| event_handler_field_err(fields@, k, se),
                        );
                    }
                    Err(Errors::Object(errs))
                }
            },
            _ => Err(leaf("must be an object")),
        }
    }
}

} // verus!
