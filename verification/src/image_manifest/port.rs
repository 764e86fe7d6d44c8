//! Ports an app exposes: a name, a port number between 1 and 65535, a
//! protocol, an optional count (at least 1, defaulting to 1) and an optional
//! socket-activation flag (defaulting to `false`).

use vstd::prelude::*;

use crate::json::{spec_lookup, Json};
use crate::types::ACName;
use crate::util::{
    ent_keys, is_leaf_msg, key_if, leaf, lemma_obj_err_not_empty, obj_err_rel, opt_bool_val,
    opt_bool_valid, optional_bool, optional_u64, req_err_rel, req_valid, req_value_rel, required,
    required_u64, req_u64_err, Errors, Parseable, ParseResult,
};

verus! {

pub open spec fn port_count_valid(fields: Seq<(String, Json)>) -> bool {
    match spec_lookup(fields, "count"@) {
        None => true,
        Some(Json::U64(c)) => c >= 1,
        Some(_) => false,
    }
}

/// The count to store: the field's value, or 1 when the field is absent.
pub open spec fn port_count_val(fields: Seq<(String, Json)>) -> u64 {
    match spec_lookup(fields, "count"@) {
        Some(Json::U64(c)) => c,
        _ => 1,
    }
}

pub open spec fn port_count_err(fields: Seq<(String, Json)>, e: Errors) -> bool {
    match spec_lookup(fields, "count"@) {
        Some(Json::U64(c)) => c < 1 && is_leaf_msg(e, "must be >= 1"@),
        Some(_) => is_leaf_msg(e, "must be a positive integer"@),
        None => false,
    }
}

pub open spec fn port_port_valid(fields: Seq<(String, Json)>) -> bool {
    match spec_lookup(fields, "port"@) {
        Some(Json::U64(p)) => 1 <= p && p <= 65535,
        _ => false,
    }
}

/// The port number as an integer; meaningful only when the field is valid.
pub open spec fn port_port_num(fields: Seq<(String, Json)>) -> int {
    match spec_lookup(fields, "port"@) {
        Some(Json::U64(p)) => p as int,
        _ => 0,
    }
}

pub open spec fn port_port_err(fields: Seq<(String, Json)>, e: Errors) -> bool {
    match spec_lookup(fields, "port"@) {
        Some(Json::U64(p)) => (p < 1 || p > 65535) && is_leaf_msg(
            e,
            "must be >= 1 and <= 65535"@,
        ),
        Some(_) => is_leaf_msg(e, "must be a positive integer"@),
        None => is_leaf_msg(e, "must be defined"@),
    }
}

pub open spec fn port_fields_valid(fields: Seq<(String, Json)>) -> bool {
    &&& port_count_valid(fields)
    &&& req_valid::<ACName>(fields, "name"@)
    &&& port_port_valid(fields)
    &&& req_valid::<String>(fields, "protocol"@)
    &&& opt_bool_valid(fields, "socketActivated"@)
}

pub open spec fn port_bad_keys(fields: Seq<(String, Json)>) -> Seq<Seq<char>> {
    key_if("count"@, !port_count_valid(fields)) + key_if(
        "name"@,
        !req_valid::<ACName>(fields, "name"@),
    ) + key_if("port"@, !port_port_valid(fields)) + key_if(
        "protocol"@,
        !req_valid::<String>(fields, "protocol"@),
    ) + key_if("socketActivated"@, !opt_bool_valid(fields, "socketActivated"@))
}

pub open spec fn port_field_err(fields: Seq<(String, Json)>, k: Seq<char>, e: Errors) -> bool {
    if k == "count"@ {
        port_count_err(fields, e)
    } else if k == "name"@ {
        req_err_rel::<ACName>(fields, k, e)
    } else if k == "port"@ {
        port_port_err(fields, e)
    } else if k == "protocol"@ {
        req_err_rel::<String>(fields, k, e)
    } else if k == "socketActivated"@ {
        is_leaf_msg(e, "must be a boolean"@)
    } else {
        false
    }
}

proof fn keys_distinct()
    ensures
        "count"@ != "name"@,
        "count"@ != "port"@,
        "count"@ != "protocol"@,
        "count"@ != "socketActivated"@,
        "name"@ != "port"@,
        "name"@ != "protocol"@,
        "name"@ != "socketActivated"@,
        "port"@ != "protocol"@,
        "port"@ != "socketActivated"@,
        "protocol"@ != "socketActivated"@,
{
    reveal_strlit("count");
    reveal_strlit("name");
    reveal_strlit("port");
    reveal_strlit("protocol");
    reveal_strlit("socketActivated");
    assert("count"@.len() == 5);
    assert("name"@.len() == 4);
    assert("port"@.len() == 4);
    assert("protocol"@.len() == 8);
    assert("socketActivated"@.len() == 15);
    assert("name"@[0] == 'n');
    assert("port"@[0] == 'p');
}

pub struct Port {
    pub count: u64,
    pub name: ACName,
    pub port: u16,
    pub protocol: String,
    pub socket_activated: bool,
}

impl Parseable for Port {
    open spec fn json_valid(j: Json) -> bool {
        match j {
            Json::Object(fields) => port_fields_valid(fields@),
            _ => false,
        }
    }

    open spec fn value_rel(j: Json, v: Port) -> bool {
        match j {
            Json::Object(fields) => {
                &&& v.count == port_count_val(fields@)
                &&& req_value_rel::<ACName>(fields@, "name"@, v.name)
                &&& v.port as int == port_port_num(fields@)
                &&& req_value_rel::<String>(fields@, "protocol"@, v.protocol)
                &&& v.socket_activated == opt_bool_val(fields@, "socketActivated"@, false)
            },
            _ => false,
        }
    }

    open spec fn err_rel(j: Json, e: Errors) -> bool {
        match j {
            Json::Object(fields) => obj_err_rel(
                e,
                port_bad_keys(fields@),
                |k: Seq<char>, se: Errors| port_field_err(fields@, k, se),
            ),
            _ => is_leaf_msg(e, "must be an object"@),
        }
    }

    fn from_json(json: &Json) -> (r: ParseResult<Port>) {
        match json {
            Json::Object(fields) => {
                proof {
                    keys_distinct();
                }
                let mut errs: Vec<(String, Errors)> = Vec::new();
                let count = match optional_u64(fields, &"count".to_owned()) {
                    Ok(Some(c)) => {
                        if c < 1 {
                            errs.push(("count".to_owned(), leaf("must be >= 1")));
                            None
                        } else {
                            Some(c)
                        }
                    },
                    Ok(None) => Some(1),
                    Err(e) => {
                        errs.push(("count".to_owned(), e));
                        None
                    },
                };
                let name = match required::<ACName>(fields, &"name".to_owned()) {
                    Ok(v) => Some(v),
                    Err(e) => {
                        errs.push(("name".to_owned(), e));
                        None
                    },
                };
                let port = match required_u64(fields, &"port".to_owned()) {
                    Ok(p) => {
                        if p < 1 || p > 65535 {
                            errs.push(("port".to_owned(), leaf("must be >= 1 and <= 65535")));
                            None
                        } else {
                            Some(p as u16)
                        }
                    },
                    Err(e) => {
                        errs.push(("port".to_owned(), e));
                        None
                    },
                };
                let protocol = match required::<String>(fields, &"protocol".to_owned()) {
                    Ok(v) => Some(v),
                    Err(e) => {
                        errs.push(("protocol".to_owned(), e));
                        None
                    },
                };
                let socket_activated = match optional_bool(
                    fields,
                    &"socketActivated".to_owned(),
                    false,
                ) {
                    Ok(b) => Some(b),
                    Err(e) => {
                        errs.push(("socketActivated".to_owned(), e));
                        None
                    },
                };
                if errs.len() == 0 {
                    match (count, name, port, protocol, socket_activated) {
                        (Some(c), Some(n), Some(p), Some(pr), Some(sa)) => Ok(
                            Port {
                                count: c,
                                name: n,
                                port: p,
                                protocol: pr,
                                socket_activated: sa,
                            },
                        ),
                        _ => vstd::pervasive::unreached(),
                    }
                } else {
                    proof {
                        assert(ent_keys(errs@) =~= port_bad_keys(fields@));
                        lemma_obj_err_not_empty(
                            Errors::Object(errs),
                            port_bad_keys(fields@),
                            |k: Seq<char>, se: Errors| port_field_err(fields@, k, se),
                        );
                    }
                    Err(Errors::Object(errs))
                }
            },
            _ => Err(leaf("must be an object")),
        }
    }
}

} // verus!
