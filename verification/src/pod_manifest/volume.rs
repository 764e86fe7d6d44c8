//! Volumes a pod provides to its apps.

use vstd::prelude::*;

use crate::json::{spec_lookup, Json};
use crate::pod_manifest::Kind;
use crate::types::ACName;
use crate::util::{
    ent_keys, errors_empty, field_optional, field_required, field_required_bool,
    field_required_u64, is_leaf_msg, key_if, leaf, lemma_obj_err_not_empty, obj_err_rel,
    opt_valid, opt_value_rel, req_bool_err, req_bool_val, req_bool_valid, req_err_rel,
    req_u64_err, req_u64_val, req_u64_valid, req_valid, req_value_rel, Errors, Parseable,
    ParseResult,
};

verus! {

pub open spec fn volume_fields_valid(fields: Seq<(String, Json)>) -> bool {
    &&& req_u64_valid(fields, "gid"@)
    &&& req_valid::<Kind>(fields, "kind"@)
    &&& req_valid::<String>(fields, "mode"@)
    &&& req_valid::<ACName>(fields, "name"@)
    &&& req_bool_valid(fields, "readOnly"@)
    &&& opt_valid::<String>(fields, "source"@)
    &&& req_u64_valid(fields, "uid"@)
}

pub open spec fn volume_bad_keys_a(fields: Seq<(String, Json)>) -> Seq<Seq<char>> {
    key_if("gid"@, !req_u64_valid(fields, "gid"@)) + key_if(
        "kind"@,
        !req_valid::<Kind>(fields, "kind"@),
    ) + key_if("mode"@, !req_valid::<String>(fields, "mode"@)) + key_if(
        "name"@,
        !req_valid::<ACName>(fields, "name"@),
    )
}

pub open spec fn volume_bad_keys_b(fields: Seq<(String, Json)>) -> Seq<Seq<char>> {
    key_if("readOnly"@, !req_bool_valid(fields, "readOnly"@)) + key_if(
        "source"@,
        !opt_valid::<String>(fields, "source"@),
    ) + key_if("uid"@, !req_u64_valid(fields, "uid"@))
}

pub open spec fn volume_bad_keys(fields: Seq<(String, Json)>) -> Seq<Seq<char>> {
    volume_bad_keys_a(fields) + volume_bad_keys_b(fields)
}

pub open spec fn volume_field_err(fields: Seq<(String, Json)>, k: Seq<char>, e: Errors) -> bool {
    if k == "gid"@ {
        req_u64_err(fields, k, e)
    } else if k == "kind"@ {
        req_err_rel::<Kind>(fields, k, e)
    } else if k == "mode"@ {
        req_err_rel::<String>(fields, k, e)
    } else if k == "name"@ {
        req_err_rel::<ACName>(fields, k, e)
    } else if k == "readOnly"@ {
        req_bool_err(fields, k, e)
    } else if k == "source"@ {
        crate::util::opt_err_rel::<String>(fields, k, e)
    } else if k == "uid"@ {
        req_u64_err(fields, k, e)
    } else {
        false
    }
}

proof fn keys_distinct()
    ensures
        "gid"@ != "kind"@,
        "gid"@ != "mode"@,
        "gid"@ != "name"@,
        "gid"@ != "readOnly"@,
        "gid"@ != "source"@,
        "gid"@ != "uid"@,
        "kind"@ != "mode"@,
        "kind"@ != "name"@,
        "kind"@ != "readOnly"@,
        "kind"@ != "source"@,
        "kind"@ != "uid"@,
        "mode"@ != "name"@,
        "mode"@ != "readOnly"@,
        "mode"@ != "source"@,
        "mode"@ != "uid"@,
        "name"@ != "readOnly"@,
        "name"@ != "source"@,
        "name"@ != "uid"@,
        "readOnly"@ != "source"@,
        "readOnly"@ != "uid"@,
        "source"@ != "uid"@,
{
    reveal_strlit("gid");
    reveal_strlit("kind");
    reveal_strlit("mode");
    reveal_strlit("name");
    reveal_strlit("readOnly");
    reveal_strlit("source");
    reveal_strlit("uid");
    assert("gid"@.len() == 3);
    assert("kind"@.len() == 4);
    assert("mode"@.len() == 4);
    assert("name"@.len() == 4);
    assert("readOnly"@.len() == 8);
    assert("source"@.len() == 6);
    assert("uid"@.len() == 3);
    assert("gid"@[0] == 'g');
    assert("uid"@[0] == 'u');
    assert("kind"@[0] == 'k');
    assert("mode"@[0] == 'm');
    assert("name"@[0] == 'n');
}

/// A pod-level volume: a name, an `empty` or `host` kind, and its access
/// and ownership settings.
pub struct Volume {
    pub gid: u64,
    pub kind: Kind,
    pub mode: String,
    pub name: ACName,
    pub read_only: bool,
    pub source: Option<String>,
    pub uid: u64,
}

fn volume_scan_a(fields: &Vec<(String, Json)>, errs: &mut Vec<(String, Errors)>) -> (r: (
    Option<u64>,
    Option<Kind>,
    Option<String>,
    Option<ACName>,
))
    requires
        old(errs)@.len() == 0,
    ensures
        ent_keys(final(errs)@) == volume_bad_keys_a(fields@),
        forall|i: int|
            0 <= i < final(errs)@.len() ==> volume_field_err(
                fields@,
                (#[trigger] final(errs)@[i]).0@,
                final(errs)@[i].1,
            ) && !errors_empty(final(errs)@[i].1),
        match r.0 {
            Some(x) => req_u64_valid(fields@, "gid"@) && x == req_u64_val(fields@, "gid"@),
            None => !req_u64_valid(fields@, "gid"@),
        },
        match r.1 {
            Some(v) => req_valid::<Kind>(fields@, "kind"@) && req_value_rel::<Kind>(
                fields@,
                "kind"@,
                v,
            ),
            None => !req_valid::<Kind>(fields@, "kind"@),
        },
        match r.2 {
            Some(v) => req_valid::<String>(fields@, "mode"@) && req_value_rel::<String>(
                fields@,
                "mode"@,
                v,
            ),
            None => !req_valid::<String>(fields@, "mode"@),
        },
        match r.3 {
            Some(v) => req_valid::<ACName>(fields@, "name"@) && req_value_rel::<ACName>(
                fields@,
                "name"@,
                v,
            ),
            None => !req_valid::<ACName>(fields@, "name"@),
        },
{
    proof {
        keys_distinct();
    }
    let gid = field_required_u64(fields, "gid", errs);
    let kind = field_required::<Kind>(fields, "kind", errs);
    let mode = field_required::<String>(fields, "mode", errs);
    let name = field_required::<ACName>(fields, "name", errs);
    proof {
        assert(ent_keys(errs@) =~= volume_bad_keys_a(fields@));
        assert(forall|i: int|
            0 <= i < errs@.len() ==> volume_field_err(
                fields@,
                (#[trigger] errs@[i]).0@,
                errs@[i].1,
            ) && !errors_empty(errs@[i].1));
    }
    (gid, kind, mode, name)
}

fn volume_scan_b(fields: &Vec<(String, Json)>, errs: &mut Vec<(String, Errors)>) -> (r: (
    Option<bool>,
    Option<Option<String>>,
    Option<u64>,
))
    ensures
        final(errs)@.len() >= old(errs)@.len(),
        forall|i: int| 0 <= i < old(errs)@.len() ==> #[trigger] final(errs)@[i] == old(errs)@[i],
        ent_keys(final(errs)@) == ent_keys(old(errs)@) + volume_bad_keys_b(fields@),
        forall|i: int|
            old(errs)@.len() <= i < final(errs)@.len() ==> volume_field_err(
                fields@,
                (#[trigger] final(errs)@[i]).0@,
                final(errs)@[i].1,
            ) && !errors_empty(final(errs)@[i].1),
        match r.0 {
            Some(b) => req_bool_valid(fields@, "readOnly"@) && b == req_bool_val(
                fields@,
                "readOnly"@,
            ),
            None => !req_bool_valid(fields@, "readOnly"@),
        },
        match r.1 {
            Some(v) => opt_valid::<String>(fields@, "source"@) && opt_value_rel::<String>(
                fields@,
                "source"@,
                v,
            ),
            None => !opt_valid::<String>(fields@, "source"@),
        },
        match r.2 {
            Some(x) => req_u64_valid(fields@, "uid"@) && x == req_u64_val(fields@, "uid"@),
            None => !req_u64_valid(fields@, "uid"@),
        },
{
    proof {
        keys_distinct();
    }
    let ghost base = errs@;
    let read_only = field_required_bool(fields, "readOnly", errs);
    let source = field_optional::<String>(fields, "source", errs);
    let uid = field_required_u64(fields, "uid", errs);
    proof {
        assert(forall|i: int| 0 <= i < base.len() ==> #[trigger] errs@[i] == base[i]);
        assert(ent_keys(errs@) =~= ent_keys(base) + volume_bad_keys_b(fields@));
        assert(forall|i: int|
            base.len() <= i < errs@.len() ==> volume_field_err(
                fields@,
                (#[trigger] errs@[i]).0@,
                errs@[i].1,
            ) && !errors_empty(errs@[i].1));
    }
    (read_only, source, uid)
}

impl Parseable for Volume {
    open spec fn json_valid(j: Json) -> bool {
        match j {
            Json::Object(fields) => volume_fields_valid(fields@),
            _ => false,
        }
    }

    open spec fn value_rel(j: Json, v: Volume) -> bool {
        match j {
            Json::Object(fields) => {
                &&& v.gid == req_u64_val(fields@, "gid"@)
                &&& req_value_rel::<Kind>(fields@, "kind"@, v.kind)
                &&& req_value_rel::<String>(fields@, "mode"@, v.mode)
                &&& req_value_rel::<ACName>(fields@, "name"@, v.name)
                &&& v.read_only == req_bool_val(fields@, "readOnly"@)
                &&& opt_value_rel::<String>(fields@, "source"@, v.source)
                &&& v.uid == req_u64_val(fields@, "uid"@)
            },
            _ => false,
        }
    }

    open spec fn err_rel(j: Json, e: Errors) -> bool {
        match j {
            Json::Object(fields) => obj_err_rel(
                e,
                volume_bad_keys(fields@),
                |k: Seq<char>, se: Errors| volume_field_err(fields@, k, se),
            ),
            _ => is_leaf_msg(e, "must be an object"@),
        }
    }

    fn from_json(json: &Json) -> (r: ParseResult<Volume>) {
        match json {
            Json::Object(fields) => {
                let mut errs: Vec<(String, Errors)> = Vec::new();
                let (gid, kind, mode, name) = volume_scan_a(fields, &mut errs);
                let ghost mid = errs@;
                let (read_only, source, uid) = volume_scan_b(fields, &mut errs);
                proof {
                    assert(ent_keys(errs@) == volume_bad_keys(fields@));
                    assert forall|i: int|
                        0 <= i < errs@.len() implies volume_field_err(
                        fields@,
                        (#[trigger] errs@[i]).0@,
                        errs@[i].1,
                    ) && !errors_empty(errs@[i].1) by {
                        if i < mid.len() {
                            assert(errs@[i] == mid[i]);
                            assert(volume_field_err(fields@, mid[i].0@, mid[i].1) && !errors_empty(
                                mid[i].1,
                            ));
                        }
                    }
                }
                if errs.len() == 0 {
                    proof {
                        assert(ent_keys(errs@).len() == 0);
                    }
                    match (gid, kind, mode, name, read_only, source, uid) {
                        (
                            Some(g_v),
                            Some(k_v),
                            Some(m_v),
                            Some(n_v),
                            Some(ro_v),
                            Some(s_v),
                            Some(u_v),
                        ) => Ok(
                            Volume {
                                gid: g_v,
                                kind: k_v,
                                mode: m_v,
                                name: n_v,
                                read_only: ro_v,
                                source: s_v,
                                uid: u_v,
                            },
                        ),
                        _ => vstd::pervasive::unreached(),
                    }
                } else {
                    proof {
                        lemma_obj_err_not_empty(
                            Errors::Object(errs),
                            volume_bad_keys(fields@),
                            |k: Seq<char>, se: Errors| volume_field_err(fields@, k, se),
                        );
                    }
                    Err(Errors::Object(errs))
                }
            },
            _ => Err(leaf("must be an object")),
        }
    }
}

} // verus!
