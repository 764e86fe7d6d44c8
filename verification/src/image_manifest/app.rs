//! The app fragment of an image manifest: what an image runs.

use vstd::prelude::*;

use crate::image_manifest::environment_variable::EnvironmentVariable;
use crate::image_manifest::event_handler::EventHandler;
use crate::image_manifest::mount_point::MountPoint;
use crate::image_manifest::port::Port;
use crate::json::{spec_lookup, Json};
use crate::types::Isolator;
use crate::util::{
    ent_keys, errors_empty, field_optional, field_optional_array, field_optional_u64_array,
    is_leaf_msg, key_if, leaf, lemma_obj_err_not_empty, obj_err_rel, opt_arr_err_rel,
    opt_arr_valid, opt_arr_value_rel, opt_err_rel, opt_u64_arr_err_rel, opt_u64_arr_valid,
    opt_u64_arr_value_rel, opt_valid, opt_value_rel, Errors, Parseable, ParseResult,
};

verus! {

// ---------------------------------------------------------------------------
// The app fragment of an image manifest.
// ---------------------------------------------------------------------------
pub open spec fn app_fields_valid(fields: Seq<(String, Json)>) -> bool {
    &&& opt_arr_valid::<EnvironmentVariable>(fields, "environment"@)
    &&& opt_arr_valid::<EventHandler>(fields, "eventHandlers"@)
    &&& opt_arr_valid::<String>(fields, "exec"@)
    &&& opt_valid::<String>(fields, "group"@)
    &&& opt_arr_valid::<Isolator>(fields, "isolators"@)
    &&& opt_arr_valid::<MountPoint>(fields, "mountPoints"@)
    &&& opt_arr_valid::<Port>(fields, "ports"@)
    &&& opt_u64_arr_valid(fields, "supplementaryGids"@)
    &&& opt_valid::<String>(fields, "user"@)
    &&& opt_valid::<String>(fields, "workingDirectory"@)
}

pub open spec fn app_bad_keys_a(fields: Seq<(String, Json)>) -> Seq<Seq<char>> {
    key_if("environment"@, !opt_arr_valid::<EnvironmentVariable>(fields, "environment"@)) + key_if(
        "eventHandlers"@,
        !opt_arr_valid::<EventHandler>(fields, "eventHandlers"@),
    ) + key_if("exec"@, !opt_arr_valid::<String>(fields, "exec"@)) + key_if(
        "group"@,
        !opt_valid::<String>(fields, "group"@),
    ) + key_if("isolators"@, !opt_arr_valid::<Isolator>(fields, "isolators"@))
}

pub open spec fn app_bad_keys_b(fields: Seq<(String, Json)>) -> Seq<Seq<char>> {
    key_if("mountPoints"@, !opt_arr_valid::<MountPoint>(fields, "mountPoints"@)) + key_if(
        "ports"@,
        !opt_arr_valid::<Port>(fields, "ports"@),
    ) + key_if("supplementaryGids"@, !opt_u64_arr_valid(fields, "supplementaryGids"@)) + key_if(
        "user"@,
        !opt_valid::<String>(fields, "user"@),
    ) + key_if("workingDirectory"@, !opt_valid::<String>(fields, "workingDirectory"@))
}

pub open spec fn app_bad_keys(fields: Seq<(String, Json)>) -> Seq<Seq<char>> {
    app_bad_keys_a(fields) + app_bad_keys_b(fields)
}

pub open spec fn app_field_err(fields: Seq<(String, Json)>, k: Seq<char>, e: Errors) -> bool {
    if k == "environment"@ {
        opt_arr_err_rel::<EnvironmentVariable>(fields, k, e)
    } else if k == "eventHandlers"@ {
        opt_arr_err_rel::<EventHandler>(fields, k, e)
    } else if k == "exec"@ {
        opt_arr_err_rel::<String>(fields, k, e)
    } else if k == "group"@ {
        opt_err_rel::<String>(fields, k, e)
    } else if k == "isolators"@ {
        opt_arr_err_rel::<Isolator>(fields, k, e)
    } else if k == "mountPoints"@ {
        opt_arr_err_rel::<MountPoint>(fields, k, e)
    } else if k == "ports"@ {
        opt_arr_err_rel::<Port>(fields, k, e)
    } else if k == "supplementaryGids"@ {
        opt_u64_arr_err_rel(fields, k, e)
    } else if k == "user"@ {
        opt_err_rel::<String>(fields, k, e)
    } else if k == "workingDirectory"@ {
        opt_err_rel::<String>(fields, k, e)
    } else {
        false
    }
}

proof fn app_keys_distinct()
    ensures
        "environment"@ != "eventHandlers"@,
        "environment"@ != "exec"@,
        "environment"@ != "group"@,
        "environment"@ != "isolators"@,
        "environment"@ != "mountPoints"@,
        "environment"@ != "ports"@,
        "environment"@ != "supplementaryGids"@,
        "environment"@ != "user"@,
        "environment"@ != "workingDirectory"@,
        "eventHandlers"@ != "exec"@,
        "eventHandlers"@ != "group"@,
        "eventHandlers"@ != "isolators"@,
        "eventHandlers"@ != "mountPoints"@,
        "eventHandlers"@ != "ports"@,
        "eventHandlers"@ != "supplementaryGids"@,
        "eventHandlers"@ != "user"@,
        "eventHandlers"@ != "workingDirectory"@,
        "exec"@ != "group"@,
        "exec"@ != "isolators"@,
        "exec"@ != "mountPoints"@,
        "exec"@ != "ports"@,
        "exec"@ != "supplementaryGids"@,
        "exec"@ != "user"@,
        "exec"@ != "workingDirectory"@,
        "group"@ != "isolators"@,
        "group"@ != "mountPoints"@,
        "group"@ != "ports"@,
        "group"@ != "supplementaryGids"@,
        "group"@ != "user"@,
        "group"@ != "workingDirectory"@,
        "isolators"@ != "mountPoints"@,
        "isolators"@ != "ports"@,
        "isolators"@ != "supplementaryGids"@,
        "isolators"@ != "user"@,
        "isolators"@ != "workingDirectory"@,
        "mountPoints"@ != "ports"@,
        "mountPoints"@ != "supplementaryGids"@,
        "mountPoints"@ != "user"@,
        "mountPoints"@ != "workingDirectory"@,
        "ports"@ != "supplementaryGids"@,
        "ports"@ != "user"@,
        "ports"@ != "workingDirectory"@,
        "supplementaryGids"@ != "user"@,
        "supplementaryGids"@ != "workingDirectory"@,
        "user"@ != "workingDirectory"@,
{
    reveal_strlit("environment");
    reveal_strlit("eventHandlers");
    reveal_strlit("exec");
    reveal_strlit("group");
    reveal_strlit("isolators");
    reveal_strlit("mountPoints");
    reveal_strlit("ports");
    reveal_strlit("supplementaryGids");
    reveal_strlit("user");
    reveal_strlit("workingDirectory");
    assert("environment"@.len() == 11);
    assert("eventHandlers"@.len() == 13);
    assert("exec"@.len() == 4);
    assert("group"@.len() == 5);
    assert("isolators"@.len() == 9);
    assert("mountPoints"@.len() == 11);
    assert("ports"@.len() == 5);
    assert("supplementaryGids"@.len() == 17);
    assert("user"@.len() == 4);
    assert("workingDirectory"@.len() == 16);
    assert("environment"@[0] == 'e');
    assert("mountPoints"@[0] == 'm');
    assert("exec"@[0] == 'e');
    assert("user"@[0] == 'u');
    assert("group"@[0] == 'g');
    assert("ports"@[0] == 'p');
}

/// What an image runs: every field is optional, and an absent collection is
/// distinct from a present empty one.
pub struct App {
    pub environment: Option<Vec<EnvironmentVariable>>,
    pub event_handlers: Option<Vec<EventHandler>>,
    pub exec_args: Option<Vec<String>>,
    pub group: Option<String>,
    pub isolators: Option<Vec<Isolator>>,
    pub mount_points: Option<Vec<MountPoint>>,
    pub ports: Option<Vec<Port>>,
    pub supplementary_gids: Option<Vec<u64>>,
    pub user: Option<String>,
    pub working_directory: Option<String>,
}


/// The first half of an app's fields: every field is attempted whatever the
/// others' outcomes, and each failure is recorded under its key, in order.
/// An outer `None` means the field failed; an inner `None`, that an optional
/// field was absent.
fn app_scan_a(fields: &Vec<(String, Json)>, errs: &mut Vec<(String, Errors)>) -> (r: (
    Option<Option<Vec<EnvironmentVariable>>>,
    Option<Option<Vec<EventHandler>>>,
    Option<Option<Vec<String>>>,
    Option<Option<String>>,
    Option<Option<Vec<Isolator>>>,
))
    requires
        old(errs)@.len() == 0,
    ensures
        ent_keys(final(errs)@) == app_bad_keys_a(fields@),
        forall|i: int|
            0 <= i < final(errs)@.len() ==> app_field_err(
                fields@,
                (#[trigger] final(errs)@[i]).0@,
                final(errs)@[i].1,
            ) && !errors_empty(final(errs)@[i].1),
        match r.0 {
            Some(v) => opt_arr_valid::<EnvironmentVariable>(fields@, "environment"@)
                && opt_arr_value_rel::<EnvironmentVariable>(fields@, "environment"@, v),
            None => !opt_arr_valid::<EnvironmentVariable>(fields@, "environment"@),
        },
        match r.1 {
            Some(v) => opt_arr_valid::<EventHandler>(fields@, "eventHandlers"@)
                && opt_arr_value_rel::<EventHandler>(fields@, "eventHandlers"@, v),
            None => !opt_arr_valid::<EventHandler>(fields@, "eventHandlers"@),
        },
        match r.2 {
            Some(v) => opt_arr_valid::<String>(fields@, "exec"@) && opt_arr_value_rel::<String>(
                fields@,
                "exec"@,
                v,
            ),
            None => !opt_arr_valid::<String>(fields@, "exec"@),
        },
        match r.3 {
            Some(v) => opt_valid::<String>(fields@, "group"@) && opt_value_rel::<String>(
                fields@,
                "group"@,
                v,
            ),
            None => !opt_valid::<String>(fields@, "group"@),
        },
        match r.4 {
            Some(v) => opt_arr_valid::<Isolator>(fields@, "isolators"@)
                && opt_arr_value_rel::<Isolator>(fields@, "isolators"@, v),
            None => !opt_arr_valid::<Isolator>(fields@, "isolators"@),
        },
{
    proof {
        app_keys_distinct();
    }
    let environment = field_optional_array::<EnvironmentVariable>(fields, "environment", errs);
    let event_handlers = field_optional_array::<EventHandler>(fields, "eventHandlers", errs);
    let exec_args = field_optional_array::<String>(fields, "exec", errs);
    let group = field_optional::<String>(fields, "group", errs);
    let isolators = field_optional_array::<Isolator>(fields, "isolators", errs);
    proof {
        assert(ent_keys(errs@) =~= app_bad_keys_a(fields@));
        assert(forall|i: int|
            0 <= i < errs@.len() ==> app_field_err(
                fields@,
                (#[trigger] errs@[i]).0@,
                errs@[i].1,
            ) && !errors_empty(errs@[i].1));
    }
    (environment, event_handlers, exec_args, group, isolators)
}

/// The second half of an app's fields, appended to whatever the first half
/// recorded.
fn app_scan_b(fields: &Vec<(String, Json)>, errs: &mut Vec<(String, Errors)>) -> (r: (
    Option<Option<Vec<MountPoint>>>,
    Option<Option<Vec<Port>>>,
    Option<Option<Vec<u64>>>,
    Option<Option<String>>,
    Option<Option<String>>,
))
    ensures
        final(errs)@.len() >= old(errs)@.len(),
        forall|i: int| 0 <= i < old(errs)@.len() ==> #[trigger] final(errs)@[i] == old(errs)@[i],
        ent_keys(final(errs)@) == ent_keys(old(errs)@) + app_bad_keys_b(fields@),
        forall|i: int|
            old(errs)@.len() <= i < final(errs)@.len() ==> app_field_err(
                fields@,
                (#[trigger] final(errs)@[i]).0@,
                final(errs)@[i].1,
            ) && !errors_empty(final(errs)@[i].1),
        match r.0 {
            Some(v) => opt_arr_valid::<MountPoint>(fields@, "mountPoints"@)
                && opt_arr_value_rel::<MountPoint>(fields@, "mountPoints"@, v),
            None => !opt_arr_valid::<MountPoint>(fields@, "mountPoints"@),
        },
        match r.1 {
            Some(v) => opt_arr_valid::<Port>(fields@, "ports"@) && opt_arr_value_rel::<Port>(
                fields@,
                "ports"@,
                v,
            ),
            None => !opt_arr_valid::<Port>(fields@, "ports"@),
        },
        match r.2 {
            Some(v) => opt_u64_arr_valid(fields@, "supplementaryGids"@) && opt_u64_arr_value_rel(
                fields@,
                "supplementaryGids"@,
                v,
            ),
            None => !opt_u64_arr_valid(fields@, "supplementaryGids"@),
        },
        match r.3 {
            Some(v) => opt_valid::<String>(fields@, "user"@) && opt_value_rel::<String>(
                fields@,
                "user"@,
                v,
            ),
            None => !opt_valid::<String>(fields@, "user"@),
        },
        match r.4 {
            Some(v) => opt_valid::<String>(fields@, "workingDirectory"@) && opt_value_rel::<String>(
                fields@,
                "workingDirectory"@,
                v,
            ),
            None => !opt_valid::<String>(fields@, "workingDirectory"@),
        },
{
    proof {
        app_keys_distinct();
    }
    let ghost base = errs@;
    let mount_points = field_optional_array::<MountPoint>(fields, "mountPoints", errs);
    let ports = field_optional_array::<Port>(fields, "ports", errs);
    let supplementary_gids = field_optional_u64_array(fields, "supplementaryGids", errs);
    let user = field_optional::<String>(fields, "user", errs);
    let working_directory = field_optional::<String>(fields, "workingDirectory", errs);
    proof {
        assert(forall|i: int| 0 <= i < base.len() ==> #[trigger] errs@[i] == base[i]);
        assert(ent_keys(errs@) =~= ent_keys(base) + app_bad_keys_b(fields@));
        assert(forall|i: int|
            base.len() <= i < errs@.len() ==> app_field_err(
                fields@,
                (#[trigger] errs@[i]).0@,
                errs@[i].1,
            ) && !errors_empty(errs@[i].1));
    }
    (mount_points, ports, supplementary_gids, user, working_directory)
}

impl Parseable for App {
    open spec fn json_valid(j: Json) -> bool {
        match j {
            Json::Object(fields) => app_fields_valid(fields@),
            _ => false,
        }
    }

    open spec fn value_rel(j: Json, v: App) -> bool {
        match j {
            Json::Object(fields) => {
                &&& opt_arr_value_rel::<EnvironmentVariable>(fields@, "environment"@, v.environment)
                &&& opt_arr_value_rel::<EventHandler>(fields@, "eventHandlers"@, v.event_handlers)
                &&& opt_arr_value_rel::<String>(fields@, "exec"@, v.exec_args)
                &&& opt_value_rel::<String>(fields@, "group"@, v.group)
                &&& opt_arr_value_rel::<Isolator>(fields@, "isolators"@, v.isolators)
                &&& opt_arr_value_rel::<MountPoint>(fields@, "mountPoints"@, v.mount_points)
                &&& opt_arr_value_rel::<Port>(fields@, "ports"@, v.ports)
                &&& opt_u64_arr_value_rel(fields@, "supplementaryGids"@, v.supplementary_gids)
                &&& opt_value_rel::<String>(fields@, "user"@, v.user)
                &&& opt_value_rel::<String>(fields@, "workingDirectory"@, v.working_directory)
            },
            _ => false,
        }
    }

    open spec fn err_rel(j: Json, e: Errors) -> bool {
        match j {
            Json::Object(fields) => obj_err_rel(
                e,
                app_bad_keys(fields@),
                |k: Seq<char>, se: Errors| app_field_err(fields@, k, se),
            ),
            _ => is_leaf_msg(e, "must be an object"@),
        }
    }

    fn from_json(json: &Json) -> (r: ParseResult<App>) {
        match json {
            Json::Object(fields) => {
                let mut errs: Vec<(String, Errors)> = Vec::new();
                let (environment, event_handlers, exec_args, group, isolators) = app_scan_a(
                    fields,
                    &mut errs,
                );
                let ghost mid = errs@;
                let (mount_points, ports, supplementary_gids, user, working_directory) =
                    app_scan_b(fields, &mut errs);
                proof {
                    assert(ent_keys(errs@) == app_bad_keys(fields@));
                    assert forall|i: int|
                        0 <= i < errs@.len() implies app_field_err(
                        fields@,
                        (#[trigger] errs@[i]).0@,
                        errs@[i].1,
                    ) && !errors_empty(errs@[i].1) by {
                        if i < mid.len() {
                            assert(errs@[i] == mid[i]);
                            assert(app_field_err(fields@, mid[i].0@, mid[i].1) && !errors_empty(
                                mid[i].1,
                            ));
                        }
                    }
                }
                if errs.len() == 0 {
                    proof {
                        assert(ent_keys(errs@).len() == 0);
                    }
                    match (environment, event_handlers, exec_args, group, isolators, mount_points, ports, supplementary_gids, user, working_directory) {
                        (Some(env_v), Some(eh_v), Some(ex_v), Some(g_v), Some(iso_v), Some(mp_v), Some(po_v), Some(sg_v), Some(u_v), Some(wd_v)) => Ok(App {
                            environment: env_v,
                            event_handlers: eh_v,
                            exec_args: ex_v,
                            group: g_v,
                            isolators: iso_v,
                            mount_points: mp_v,
                            ports: po_v,
                            supplementary_gids: sg_v,
                            user: u_v,
                            working_directory: wd_v,
                        }),
                        _ => vstd::pervasive::unreached(),
                    }
                } else {
                    proof {
                        lemma_obj_err_not_empty(
                            Errors::Object(errs),
                            app_bad_keys(fields@),
                            |k: Seq<char>, se: Errors| app_field_err(fields@, k, se),
                        );
                    }
                    Err(Errors::Object(errs))
                }
            },
            _ => Err(leaf("must be an object")),
        }
    }
}



} // verus!
