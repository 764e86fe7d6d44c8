//! An app entry of a pod: a name, the image it runs, and optional overrides.

use vstd::prelude::*;

use crate::json::{spec_lookup, Json};
use crate::pod_manifest::{Annotation, Image, Mount};
use crate::types::ACName;
use crate::util::{
    ent_keys, errors_empty, field_optional, field_optional_array, field_required, is_leaf_msg,
    key_if, leaf, lemma_obj_err_not_empty, obj_err_rel, opt_arr_err_rel, opt_arr_valid,
    opt_arr_value_rel, opt_err_rel, opt_valid, opt_value_rel, req_err_rel, req_valid,
    req_value_rel, Errors, Parseable, ParseResult,
};

verus! {

pub open spec fn pod_app_fields_valid(fields: Seq<(String, Json)>) -> bool {
    &&& opt_arr_valid::<Annotation>(fields, "annotations"@)
    &&& opt_valid::<crate::image_manifest::app::App>(fields, "app"@)
    &&& req_valid::<Image>(fields, "image"@)
    &&& opt_arr_valid::<Mount>(fields, "mounts"@)
    &&& req_valid::<ACName>(fields, "name"@)
}

pub open spec fn pod_app_bad_keys(fields: Seq<(String, Json)>) -> Seq<Seq<char>> {
    key_if("annotations"@, !opt_arr_valid::<Annotation>(fields, "annotations"@)) + key_if(
        "app"@,
        !opt_valid::<crate::image_manifest::app::App>(fields, "app"@),
    ) + key_if("image"@, !req_valid::<Image>(fields, "image"@)) + key_if(
        "mounts"@,
        !opt_arr_valid::<Mount>(fields, "mounts"@),
    ) + key_if("name"@, !req_valid::<ACName>(fields, "name"@))
}

pub open spec fn pod_app_field_err(fields: Seq<(String, Json)>, k: Seq<char>, e: Errors) -> bool {
    if k == "annotations"@ {
        opt_arr_err_rel::<Annotation>(fields, k, e)
    } else if k == "app"@ {
        opt_err_rel::<crate::image_manifest::app::App>(fields, k, e)
    } else if k == "image"@ {
        req_err_rel::<Image>(fields, k, e)
    } else if k == "mounts"@ {
        opt_arr_err_rel::<Mount>(fields, k, e)
    } else if k == "name"@ {
        req_err_rel::<ACName>(fields, k, e)
    } else {
        false
    }
}

proof fn keys_distinct()
    ensures
        "annotations"@ != "app"@,
        "annotations"@ != "image"@,
        "annotations"@ != "mounts"@,
        "annotations"@ != "name"@,
        "app"@ != "image"@,
        "app"@ != "mounts"@,
        "app"@ != "name"@,
        "image"@ != "mounts"@,
        "image"@ != "name"@,
        "mounts"@ != "name"@,
{
    reveal_strlit("annotations");
    reveal_strlit("app");
    reveal_strlit("image");
    reveal_strlit("mounts");
    reveal_strlit("name");
    assert("annotations"@.len() == 11);
    assert("app"@.len() == 3);
    assert("image"@.len() == 5);
    assert("mounts"@.len() == 6);
    assert("name"@.len() == 4);
}

/// One scheduled app of a pod.
pub struct App {
    pub annotations: Option<Vec<Annotation>>,
    pub app: Option<crate::image_manifest::app::App>,
    pub image: Image,
    pub mounts: Option<Vec<Mount>>,
    pub name: ACName,
}

impl Parseable for App {
    open spec fn json_valid(j: Json) -> bool {
        match j {
            Json::Object(fields) => pod_app_fields_valid(fields@),
            _ => false,
        }
    }

    open spec fn value_rel(j: Json, v: App) -> bool {
        match j {
            Json::Object(fields) => {
                &&& opt_arr_value_rel::<Annotation>(fields@, "annotations"@, v.annotations)
                &&& opt_value_rel::<crate::image_manifest::app::App>(fields@, "app"@, v.app)
                &&& req_value_rel::<Image>(fields@, "image"@, v.image)
                &&& opt_arr_value_rel::<Mount>(fields@, "mounts"@, v.mounts)
                &&& req_value_rel::<ACName>(fields@, "name"@, v.name)
            },
            _ => false,
        }
    }

    open spec fn err_rel(j: Json, e: Errors) -> bool {
        match j {
            Json::Object(fields) => obj_err_rel(
                e,
                pod_app_bad_keys(fields@),
                |k: Seq<char>, se: Errors| pod_app_field_err(fields@, k, se),
            ),
            _ => is_leaf_msg(e, "must be an object"@),
        }
    }

    fn from_json(json: &Json) -> (r: ParseResult<App>) {
        match json {
            Json::Object(fields) => {
                proof {
                    keys_distinct();
                }
                let mut errs: Vec<(String, Errors)> = Vec::new();
                let annotations = field_optional_array::<Annotation>(fields, "annotations", &mut errs);
                let app = field_optional::<crate::image_manifest::app::App>(
                    fields,
                    "app",
                    &mut errs,
                );
                let image = field_required::<Image>(fields, "image", &mut errs);
                let mounts = field_optional_array::<Mount>(fields, "mounts", &mut errs);
                let name = field_required::<ACName>(fields, "name", &mut errs);
                proof {
                    assert(ent_keys(errs@) =~= pod_app_bad_keys(fields@));
                    assert(forall|i: int|
                        0 <= i < errs@.len() ==> pod_app_field_err(
                            fields@,
                            (#[trigger] errs@[i]).0@,
                            errs@[i].1,
                        ) && !errors_empty(errs@[i].1));
                }
                if errs.len() == 0 {
                    match (annotations, app, image, mounts, name) {
                        (Some(an_v), Some(ap_v), Some(im_v), Some(mo_v), Some(n_v)) => Ok(
                            App {
                                annotations: an_v,
                                app: ap_v,
                                image: im_v,
                                mounts: mo_v,
                                name: n_v,
                            },
                        ),
                        _ => vstd::pervasive::unreached(),
                    }
                } else {
                    proof {
                        lemma_obj_err_not_empty(
                            Errors::Object(errs),
                            pod_app_bad_keys(fields@),
                            |k: Seq<char>, se: Errors| pod_app_field_err(fields@, k, se),
                        );
                    }
                    Err(Errors::Object(errs))
                }
            },
            _ => Err(leaf("must be an object")),
        }
    }
}

} // verus!
