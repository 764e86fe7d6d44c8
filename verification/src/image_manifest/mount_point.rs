//! Mount points an app expects: a name, a path, and a read-only flag that
//! defaults to `false` when absent.

use vstd::prelude::*;

use crate::json::{spec_lookup, Json};
use crate::types::ACName;
use crate::util::{
    errors_empty,
    ent_keys, is_leaf_msg, key_if, leaf, lemma_obj_err_not_empty, obj_err_rel, opt_bool_val,
    opt_bool_valid, optional_bool, req_err_rel, req_valid, req_value_rel, required, Errors,
    Parseable, ParseResult,
};

verus! {

pub open spec fn mount_point_fields_valid(fields: Seq<(String, Json)>) -> bool {
    &&& req_valid::<ACName>(fields, "name"@)
    &&& req_valid::<String>(fields, "path"@)
    &&& opt_bool_valid(fields, "readOnly"@)
}

pub open spec fn mount_point_bad_keys(fields: Seq<(String, Json)>) -> Seq<Seq<char>> {
    key_if("name"@, !req_valid::<ACName>(fields, "name"@)) + key_if(
        "path"@,
        !req_valid::<String>(fields, "path"@),
    ) + key_if("readOnly"@, !opt_bool_valid(fields, "readOnly"@))
}

pub open spec fn mount_point_field_err(
    fields: Seq<(String, Json)>,
    k: Seq<char>,
    e: Errors,
) -> bool {
    if k == "name"@ {
        req_err_rel::<ACName>(fields, k, e)
    } else if k == "path"@ {
        req_err_rel::<String>(fields, k, e)
    } else if k == "readOnly"@ {
        is_leaf_msg(e, "must be a boolean"@)
    } else {
        false
    }
}

proof fn keys_distinct()
    ensures
        "name"@ != "path"@,
        "name"@ != "readOnly"@,
        "path"@ != "readOnly"@,
{
    reveal_strlit("name");
    reveal_strlit("path");
    reveal_strlit("readOnly");
    assert("name"@.len() == 4);
    assert("path"@.len() == 4);
    assert("readOnly"@.len() == 8);
    assert("name"@[0] == 'n');
    assert("path"@[0] == 'p');
}

pub struct MountPoint {
    pub name: ACName,
    pub path: String,
    pub read_only: bool,
}

impl Parseable for MountPoint {
    open spec fn json_valid(j: Json) -> bool {
        match j {
            Json::Object(fields) => mount_point_fields_valid(fields@),
            _ => false,
        }
    }

    open spec fn value_rel(j: Json, v: MountPoint) -> bool {
        match j {
            Json::Object(fields) => {
                &&& req_value_rel::<ACName>(fields@, "name"@, v.name)
                &&& req_value_rel::<String>(fields@, "path"@, v.path)
                &&& v.read_only == opt_bool_val(fields@, "readOnly"@, false)
            },
            _ => false,
        }
    }

    open spec fn err_rel(j: Json, e: Errors) -> bool {
        match j {
            Json::Object(fields) => obj_err_rel(
                e,
                mount_point_bad_keys(fields@),
                |k: Seq<char>, se: Errors| mount_point_field_err(fields@, k, se),
            ),
            _ => is_leaf_msg(e, "must be an object"@),
        }
    }

    fn from_json(json: &Json) -> (r: ParseResult<MountPoint>) {
        match json {
            Json::Object(fields) => {
                proof {
                    keys_distinct();
                }
                let mut errs: Vec<(String, Errors)> = Vec::new();
                let name = match required::<ACName>(fields, &"name".to_owned()) {
                    Ok(v) => Some(v),
                    Err(e) => {
                        errs.push(("name".to_owned(), e));
                        None
                    },
                };
                let path = match required::<String>(fields, &"path".to_owned()) {
                    Ok(v) => Some(v),
                    Err(e) => {
                        errs.push(("path".to_owned(), e));
                        None
                    },
                };
                let read_only = match optional_bool(fields, &"readOnly".to_owned(), false) {
                    Ok(b) => Some(b),
                    Err(e) => {
                        errs.push(("readOnly".to_owned(), e));
                        None
                    },
                };
                if errs.len() == 0 {
                    match (name, path, read_only) {
                        (Some(n), Some(p), Some(ro)) => Ok(
                            MountPoint { name: n, path: p, read_only: ro },
                        ),
                        _ => vstd::pervasive::unreached(),
                    }
                } else {
                    proof {
                        assert(ent_keys(errs@) =~= mount_point_bad_keys(fields@));
                        lemma_obj_err_not_empty(
                            Errors::Object(errs),
                            mount_point_bad_keys(fields@),
                            |k: Seq<char>, se: Errors| mount_point_field_err(fields@, k, se),
                        );
                    }
                    Err(Errors::Object(errs))
                }
            },
            _ => Err(leaf("must be an object")),
        }
    }
}

} // verus!
