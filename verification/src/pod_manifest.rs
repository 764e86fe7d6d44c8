//! The pod manifest: a group of co-located apps, each referencing an image,
//! plus pod-level volumes, ports and isolators.

pub mod app;
pub mod volume;

use vstd::prelude::*;

use crate::json::{clone_json_vec, json_seq_eq, spec_lookup, Json};
use crate::pod_manifest::app::App;
use crate::pod_manifest::volume::Volume;
use crate::types::{ACIdentifier, ACKind, ACName, ACVersion, ImageID, Isolator};
use crate::util::{
    arr_err_rel, arr_valid, arr_value_rel, array_of, ent_keys, errors_empty, field_optional,
    field_optional_array, field_required, field_required_u64, is_leaf_msg, key_if, leaf,
    lemma_obj_err_not_empty, obj_err_rel, opt_arr_err_rel, opt_arr_valid, opt_arr_value_rel,
    opt_err_rel, opt_valid, opt_value_rel, req_err_rel, req_u64_err, req_u64_val, req_u64_valid,
    req_valid, req_value_rel, required, Errors, Parseable, ParseResult, StringWrapper,
};

verus! {

// ---------------------------------------------------------------------------
// Pod annotations.
// ---------------------------------------------------------------------------
pub open spec fn pod_annotation_fields_valid(fields: Seq<(String, Json)>) -> bool {
    &&& req_valid::<ACName>(fields, "name"@)
    &&& req_valid::<String>(fields, "value"@)
}

pub open spec fn pod_annotation_bad_keys(fields: Seq<(String, Json)>) -> Seq<Seq<char>> {
    key_if("name"@, !req_valid::<ACName>(fields, "name"@)) + key_if(
        "value"@,
        !req_valid::<String>(fields, "value"@),
    )
}

pub open spec fn pod_annotation_field_err(
    fields: Seq<(String, Json)>,
    k: Seq<char>,
    e: Errors,
) -> bool {
    if k == "name"@ {
        req_err_rel::<ACName>(fields, k, e)
    } else if k == "value"@ {
        req_err_rel::<String>(fields, k, e)
    } else {
        false
    }
}

proof fn annotation_keys_distinct()
    ensures
        "name"@ != "value"@,
{
    reveal_strlit("name");
    reveal_strlit("value");
    assert("name"@.len() == 4);
    assert("value"@.len() == 5);
}

/// A named, free-form string attached to a pod or one of its apps.
pub struct Annotation {
    pub name: ACName,
    pub value: String,
}

impl Parseable for Annotation {
    open spec fn json_valid(j: Json) -> bool {
        match j {
            Json::Object(fields) => pod_annotation_fields_valid(fields@),
            _ => false,
        }
    }

    open spec fn value_rel(j: Json, v: Annotation) -> bool {
        match j {
            Json::Object(fields) => {
                &&& req_value_rel::<ACName>(fields@, "name"@, v.name)
                &&& req_value_rel::<String>(fields@, "value"@, v.value)
            },
            _ => false,
        }
    }

    open spec fn err_rel(j: Json, e: Errors) -> bool {
        match j {
            Json::Object(fields) => obj_err_rel(
                e,
                pod_annotation_bad_keys(fields@),
                |k: Seq<char>, se: Errors| pod_annotation_field_err(fields@, k, se),
            ),
            _ => is_leaf_msg(e, "must be an object"@),
        }
    }

    fn from_json(json: &Json) -> (r: ParseResult<Annotation>) {
        match json {
            Json::Object(fields) => {
                proof {
                    annotation_keys_distinct();
                }
                let mut errs: Vec<(String, Errors)> = Vec::new();
                let name = field_required::<ACName>(fields, "name", &mut errs);
                let value = field_required::<String>(fields, "value", &mut errs);
                proof {
                    assert(ent_keys(errs@) =~= pod_annotation_bad_keys(fields@));
                    assert(forall|i: int|
                        0 <= i < errs@.len() ==> pod_annotation_field_err(
                            fields@,
                            (#[trigger] errs@[i]).0@,
                            errs@[i].1,
                        ) && !errors_empty(errs@[i].1));
                }
                if errs.len() == 0 {
                    match (name, value) {
                        (Some(n), Some(v)) => Ok(Annotation { name: n, value: v }),
                        _ => vstd::pervasive::unreached(),
                    }
                } else {
                    proof {
                        lemma_obj_err_not_empty(
                            Errors::Object(errs),
                            pod_annotation_bad_keys(fields@),
                            |k: Seq<char>, se: Errors| pod_annotation_field_err(fields@, k, se),
                        );
                    }
                    Err(Errors::Object(errs))
                }
            },
            _ => Err(leaf("must be an object")),
        }
    }
}

// ---------------------------------------------------------------------------
// Image references.
// ---------------------------------------------------------------------------
pub open spec fn image_labels_valid(fields: Seq<(String, Json)>) -> bool {
    match spec_lookup(fields, "labels"@) {
        None => true,
        Some(Json::Array(elems)) => true,
        Some(_) => false,
    }
}

/// The kept label list is an element-wise verbatim copy of the input array.
pub open spec fn image_labels_value_rel(
    fields: Seq<(String, Json)>,
    v: Option<Vec<Json>>,
) -> bool {
    match spec_lookup(fields, "labels"@) {
        None => v is None,
        Some(Json::Array(elems)) => match v {
            Some(ls) => json_seq_eq(ls@, elems@),
            None => false,
        },
        Some(_) => false,
    }
}

pub open spec fn image_fields_valid(fields: Seq<(String, Json)>) -> bool {
    &&& req_valid::<ImageID>(fields, "id"@)
    &&& image_labels_valid(fields)
    &&& opt_valid::<ACIdentifier>(fields, "name"@)
}

pub open spec fn image_bad_keys(fields: Seq<(String, Json)>) -> Seq<Seq<char>> {
    key_if("id"@, !req_valid::<ImageID>(fields, "id"@)) + key_if(
        "labels"@,
        !image_labels_valid(fields),
    ) + key_if("name"@, !opt_valid::<ACIdentifier>(fields, "name"@))
}

pub open spec fn image_field_err(fields: Seq<(String, Json)>, k: Seq<char>, e: Errors) -> bool {
    if k == "id"@ {
        req_err_rel::<ImageID>(fields, k, e)
    } else if k == "labels"@ {
        is_leaf_msg(e, "must be an array"@)
    } else if k == "name"@ {
        opt_err_rel::<ACIdentifier>(fields, k, e)
    } else {
        false
    }
}

proof fn image_keys_distinct()
    ensures
        "id"@ != "labels"@,
        "id"@ != "name"@,
        "labels"@ != "name"@,
{
    reveal_strlit("id");
    reveal_strlit("labels");
    reveal_strlit("name");
    assert("id"@.len() == 2);
    assert("labels"@.len() == 6);
    assert("name"@.len() == 4);
}

/// The image an app runs: its content address, and optionally the name and
/// labels it was resolved from, kept verbatim.
pub struct Image {
    pub id: ImageID,
    pub labels: Option<Vec<Json>>,
    pub name: Option<ACIdentifier>,
}

impl Parseable for Image {
    open spec fn json_valid(j: Json) -> bool {
        match j {
            Json::Object(fields) => image_fields_valid(fields@),
            _ => false,
        }
    }

    open spec fn value_rel(j: Json, v: Image) -> bool {
        match j {
            Json::Object(fields) => {
                &&& req_value_rel::<ImageID>(fields@, "id"@, v.id)
                &&& image_labels_value_rel(fields@, v.labels)
                &&& opt_value_rel::<ACIdentifier>(fields@, "name"@, v.name)
            },
            _ => false,
        }
    }

    open spec fn err_rel(j: Json, e: Errors) -> bool {
        match j {
            Json::Object(fields) => obj_err_rel(
                e,
                image_bad_keys(fields@),
                |k: Seq<char>, se: Errors| image_field_err(fields@, k, se),
            ),
            _ => is_leaf_msg(e, "must be an object"@),
        }
    }

    fn from_json(json: &Json) -> (r: ParseResult<Image>) {
        match json {
            Json::Object(fields) => {
                proof {
                    image_keys_distinct();
                }
                let mut errs: Vec<(String, Errors)> = Vec::new();
                let id = field_required::<ImageID>(fields, "id", &mut errs);
                let labels = match crate::json::lookup(fields, &"labels".to_owned()) {
                    None => Some(None),
                    Some(j) => match j {
                        Json::Array(elems) => Some(Some(clone_json_vec(elems))),
                        _ => {
                            errs.push(("labels".to_owned(), leaf("must be an array")));
                            None
                        },
                    },
                };
                let name = field_optional::<ACIdentifier>(fields, "name", &mut errs);
                proof {
                    assert(ent_keys(errs@) =~= image_bad_keys(fields@));
                    assert(forall|i: int|
                        0 <= i < errs@.len() ==> image_field_err(
                            fields@,
                            (#[trigger] errs@[i]).0@,
                            errs@[i].1,
                        ) && !errors_empty(errs@[i].1));
                }
                if errs.len() == 0 {
                    match (id, labels, name) {
                        (Some(i_v), Some(l_v), Some(n_v)) => Ok(
                            Image { id: i_v, labels: l_v, name: n_v },
                        ),
                        _ => vstd::pervasive::unreached(),
                    }
                } else {
                    proof {
                        lemma_obj_err_not_empty(
                            Errors::Object(errs),
                            image_bad_keys(fields@),
                            |k: Seq<char>, se: Errors| image_field_err(fields@, k, se),
                        );
                    }
                    Err(Errors::Object(errs))
                }
            },
            _ => Err(leaf("must be an object")),
        }
    }
}

// ---------------------------------------------------------------------------
// Mounts.
// ---------------------------------------------------------------------------
pub open spec fn mount_fields_valid(fields: Seq<(String, Json)>) -> bool {
    &&& req_valid::<String>(fields, "path"@)
    &&& req_valid::<ACName>(fields, "volume"@)
}

pub open spec fn mount_bad_keys(fields: Seq<(String, Json)>) -> Seq<Seq<char>> {
    key_if("path"@, !req_valid::<String>(fields, "path"@)) + key_if(
        "volume"@,
        !req_valid::<ACName>(fields, "volume"@),
    )
}

pub open spec fn mount_field_err(fields: Seq<(String, Json)>, k: Seq<char>, e: Errors) -> bool {
    if k == "path"@ {
        req_err_rel::<String>(fields, k, e)
    } else if k == "volume"@ {
        req_err_rel::<ACName>(fields, k, e)
    } else {
        false
    }
}

proof fn mount_keys_distinct()
    ensures
        "path"@ != "volume"@,
{
    reveal_strlit("path");
    reveal_strlit("volume");
    assert("path"@.len() == 4);
    assert("volume"@.len() == 6);
}

/// A binding of a pod volume into an app's filesystem.
pub struct Mount {
    pub path: String,
    pub volume: ACName,
}

impl Parseable for Mount {
    open spec fn json_valid(j: Json) -> bool {
        match j {
            Json::Object(fields) => mount_fields_valid(fields@),
            _ => false,
        }
    }

    open spec fn value_rel(j: Json, v: Mount) -> bool {
        match j {
            Json::Object(fields) => {
                &&& req_value_rel::<String>(fields@, "path"@, v.path)
                &&& req_value_rel::<ACName>(fields@, "volume"@, v.volume)
            },
            _ => false,
        }
    }

    open spec fn err_rel(j: Json, e: Errors) -> bool {
        match j {
            Json::Object(fields) => obj_err_rel(
                e,
                mount_bad_keys(fields@),
                |k: Seq<char>, se: Errors| mount_field_err(fields@, k, se),
            ),
            _ => is_leaf_msg(e, "must be an object"@),
        }
    }

    fn from_json(json: &Json) -> (r: ParseResult<Mount>) {
        match json {
            Json::Object(fields) => {
                proof {
                    mount_keys_distinct();
                }
                let mut errs: Vec<(String, Errors)> = Vec::new();
                let path = field_required::<String>(fields, "path", &mut errs);
                let volume = field_required::<ACName>(fields, "volume", &mut errs);
                proof {
                    assert(ent_keys(errs@) =~= mount_bad_keys(fields@));
                    assert(forall|i: int|
                        0 <= i < errs@.len() ==> mount_field_err(
                            fields@,
                            (#[trigger] errs@[i]).0@,
                            errs@[i].1,
                        ) && !errors_empty(errs@[i].1));
                }
                if errs.len() == 0 {
                    match (path, volume) {
                        (Some(p), Some(v)) => Ok(Mount { path: p, volume: v }),
                        _ => vstd::pervasive::unreached(),
                    }
                } else {
                    proof {
                        lemma_obj_err_not_empty(
                            Errors::Object(errs),
                            mount_bad_keys(fields@),
                            |k: Seq<char>, se: Errors| mount_field_err(fields@, k, se),
                        );
                    }
                    Err(Errors::Object(errs))
                }
            },
            _ => Err(leaf("must be an object")),
        }
    }
}

// ---------------------------------------------------------------------------
// Pod-level ports.
// ---------------------------------------------------------------------------
pub open spec fn pod_port_fields_valid(fields: Seq<(String, Json)>) -> bool {
    &&& req_u64_valid(fields, "hostPort"@)
    &&& req_valid::<ACName>(fields, "name"@)
}

pub open spec fn pod_port_bad_keys(fields: Seq<(String, Json)>) -> Seq<Seq<char>> {
    key_if("hostPort"@, !req_u64_valid(fields, "hostPort"@)) + key_if(
        "name"@,
        !req_valid::<ACName>(fields, "name"@),
    )
}

pub open spec fn pod_port_field_err(fields: Seq<(String, Json)>, k: Seq<char>, e: Errors) -> bool {
    if k == "hostPort"@ {
        req_u64_err(fields, k, e)
    } else if k == "name"@ {
        req_err_rel::<ACName>(fields, k, e)
    } else {
        false
    }
}

proof fn port_keys_distinct()
    ensures
        "hostPort"@ != "name"@,
{
    reveal_strlit("hostPort");
    reveal_strlit("name");
    assert("hostPort"@.len() == 8);
    assert("name"@.len() == 4);
}

/// A host port a pod exposes for one of its apps' named ports.
pub struct Port {
    pub host_port: u64,
    pub name: ACName,
}

impl Parseable for Port {
    open spec fn json_valid(j: Json) -> bool {
        match j {
            Json::Object(fields) => pod_port_fields_valid(fields@),
            _ => false,
        }
    }

    open spec fn value_rel(j: Json, v: Port) -> bool {
        match j {
            Json::Object(fields) => {
                &&& v.host_port == req_u64_val(fields@, "hostPort"@)
                &&& req_value_rel::<ACName>(fields@, "name"@, v.name)
            },
            _ => false,
        }
    }

    open spec fn err_rel(j: Json, e: Errors) -> bool {
        match j {
            Json::Object(fields) => obj_err_rel(
                e,
                pod_port_bad_keys(fields@),
                |k: Seq<char>, se: Errors| pod_port_field_err(fields@, k, se),
            ),
            _ => is_leaf_msg(e, "must be an object"@),
        }
    }

    fn from_json(json: &Json) -> (r: ParseResult<Port>) {
        match json {
            Json::Object(fields) => {
                proof {
                    port_keys_distinct();
                }
                let mut errs: Vec<(String, Errors)> = Vec::new();
                let host_port = field_required_u64(fields, "hostPort", &mut errs);
                let name = field_required::<ACName>(fields, "name", &mut errs);
                proof {
                    assert(ent_keys(errs@) =~= pod_port_bad_keys(fields@));
                    assert(forall|i: int|
                        0 <= i < errs@.len() ==> pod_port_field_err(
                            fields@,
                            (#[trigger] errs@[i]).0@,
                            errs@[i].1,
                        ) && !errors_empty(errs@[i].1));
                }
                if errs.len() == 0 {
                    match (host_port, name) {
                        (Some(hp), Some(n)) => Ok(Port { host_port: hp, name: n }),
                        _ => vstd::pervasive::unreached(),
                    }
                } else {
                    proof {
                        lemma_obj_err_not_empty(
                            Errors::Object(errs),
                            pod_port_bad_keys(fields@),
                            |k: Seq<char>, se: Errors| pod_port_field_err(fields@, k, se),
                        );
                    }
                    Err(Errors::Object(errs))
                }
            },
            _ => Err(leaf("must be an object")),
        }
    }
}

// ---------------------------------------------------------------------------
// Volume kinds.
// ---------------------------------------------------------------------------
/// The two volume kinds, matched case-sensitively.
pub enum Kind {
    Empty,
    Host,
}

impl Kind {
    pub open spec fn spec_of(s: Seq<char>) -> Kind {
        if s == "empty"@ {
            Kind::Empty
        } else {
            Kind::Host
        }
    }
}

impl StringWrapper for Kind {
    open spec fn str_valid(s: Seq<char>) -> bool {
        s == "empty"@ || s == "host"@
    }

    open spec fn str_value_rel(s: Seq<char>, v: Kind) -> bool {
        v == Kind::spec_of(s)
    }

    open spec fn str_err_rel(s: Seq<char>, e: Errors) -> bool {
        is_leaf_msg(e, "must be one of \"empty\" or \"host\""@)
    }

    fn from_string(s: &String) -> (r: ParseResult<Kind>) {
        if *s == "empty".to_owned() {
            Ok(Kind::Empty)
        } else if *s == "host".to_owned() {
            Ok(Kind::Host)
        } else {
            Err(leaf("must be one of \"empty\" or \"host\""))
        }
    }
}

// ---------------------------------------------------------------------------
// The pod manifest.
// ---------------------------------------------------------------------------
/// The `acKind` of a pod manifest must name this manifest type; a well-formed
/// `ImageManifest` here is a distinct mismatch failure.
pub open spec fn pm_kind_valid(fields: Seq<(String, Json)>) -> bool {
    match spec_lookup(fields, "acKind"@) {
        Some(Json::String(s)) => s@ == "PodManifest"@,
        _ => false,
    }
}

pub open spec fn pm_kind_err(fields: Seq<(String, Json)>, e: Errors) -> bool {
    match spec_lookup(fields, "acKind"@) {
        None => is_leaf_msg(e, "must be defined"@),
        Some(Json::String(s)) => {
            if s@ == "ImageManifest"@ {
                is_leaf_msg(e, "must be \"PodManifest\""@)
            } else {
                s@ != "PodManifest"@ && is_leaf_msg(
                    e,
                    "must be one of \"ImageManifest\" or \"PodManifest\""@,
                )
            }
        },
        Some(_) => is_leaf_msg(e, "must be a string"@),
    }
}

pub open spec fn pm_apps_valid(fields: Seq<(String, Json)>) -> bool {
    match spec_lookup(fields, "apps"@) {
        Some(j) => arr_valid::<App>(j),
        None => false,
    }
}

pub open spec fn pm_apps_value_rel(fields: Seq<(String, Json)>, vs: Seq<App>) -> bool {
    match spec_lookup(fields, "apps"@) {
        Some(j) => arr_value_rel::<App>(j, vs),
        None => false,
    }
}

pub open spec fn pm_apps_err(fields: Seq<(String, Json)>, e: Errors) -> bool {
    match spec_lookup(fields, "apps"@) {
        Some(j) => arr_err_rel::<App>(j, e),
        None => is_leaf_msg(e, "must be defined"@),
    }
}

pub open spec fn pod_manifest_fields_valid(fields: Seq<(String, Json)>) -> bool {
    &&& pm_kind_valid(fields)
    &&& req_valid::<ACVersion>(fields, "acVersion"@)
    &&& opt_arr_valid::<Annotation>(fields, "annotations"@)
    &&& pm_apps_valid(fields)
    &&& opt_arr_valid::<Isolator>(fields, "isolators"@)
    &&& opt_arr_valid::<Port>(fields, "ports"@)
    &&& opt_arr_valid::<Volume>(fields, "volumes"@)
}

pub open spec fn pod_manifest_bad_keys_a(fields: Seq<(String, Json)>) -> Seq<Seq<char>> {
    key_if("acKind"@, !pm_kind_valid(fields)) + key_if(
        "acVersion"@,
        !req_valid::<ACVersion>(fields, "acVersion"@),
    ) + key_if("annotations"@, !opt_arr_valid::<Annotation>(fields, "annotations"@))
}

pub open spec fn pod_manifest_bad_keys_b(fields: Seq<(String, Json)>) -> Seq<Seq<char>> {
    key_if("apps"@, !pm_apps_valid(fields)) + key_if(
        "isolators"@,
        !opt_arr_valid::<Isolator>(fields, "isolators"@),
    ) + key_if("ports"@, !opt_arr_valid::<Port>(fields, "ports"@)) + key_if(
        "volumes"@,
        !opt_arr_valid::<Volume>(fields, "volumes"@),
    )
}

pub open spec fn pod_manifest_bad_keys(fields: Seq<(String, Json)>) -> Seq<Seq<char>> {
    pod_manifest_bad_keys_a(fields) + pod_manifest_bad_keys_b(fields)
}

pub open spec fn pod_manifest_field_err(
    fields: Seq<(String, Json)>,
    k: Seq<char>,
    e: Errors,
) -> bool {
    if k == "acKind"@ {
        pm_kind_err(fields, e)
    } else if k == "acVersion"@ {
        req_err_rel::<ACVersion>(fields, k, e)
    } else if k == "annotations"@ {
        opt_arr_err_rel::<Annotation>(fields, k, e)
    } else if k == "apps"@ {
        pm_apps_err(fields, e)
    } else if k == "isolators"@ {
        opt_arr_err_rel::<Isolator>(fields, k, e)
    } else if k == "ports"@ {
        opt_arr_err_rel::<Port>(fields, k, e)
    } else if k == "volumes"@ {
        opt_arr_err_rel::<Volume>(fields, k, e)
    } else {
        false
    }
}

proof fn pod_manifest_keys_distinct()
    ensures
        "acKind"@ != "acVersion"@,
        "acKind"@ != "annotations"@,
        "acKind"@ != "apps"@,
        "acKind"@ != "isolators"@,
        "acKind"@ != "ports"@,
        "acKind"@ != "volumes"@,
        "acVersion"@ != "annotations"@,
        "acVersion"@ != "apps"@,
        "acVersion"@ != "isolators"@,
        "acVersion"@ != "ports"@,
        "acVersion"@ != "volumes"@,
        "annotations"@ != "apps"@,
        "annotations"@ != "isolators"@,
        "annotations"@ != "ports"@,
        "annotations"@ != "volumes"@,
        "apps"@ != "isolators"@,
        "apps"@ != "ports"@,
        "apps"@ != "volumes"@,
        "isolators"@ != "ports"@,
        "isolators"@ != "volumes"@,
        "ports"@ != "volumes"@,
        "ImageManifest"@ != "PodManifest"@,
{
    reveal_strlit("ImageManifest");
    reveal_strlit("PodManifest");
    assert("ImageManifest"@.len() == 13);
    assert("PodManifest"@.len() == 11);
    reveal_strlit("acKind");
    reveal_strlit("acVersion");
    reveal_strlit("annotations");
    reveal_strlit("apps");
    reveal_strlit("isolators");
    reveal_strlit("ports");
    reveal_strlit("volumes");
    assert("acKind"@.len() == 6);
    assert("acVersion"@.len() == 9);
    assert("annotations"@.len() == 11);
    assert("apps"@.len() == 4);
    assert("isolators"@.len() == 9);
    assert("ports"@.len() == 5);
    assert("volumes"@.len() == 7);
    assert("acVersion"@[0] == 'a');
    assert("isolators"@[0] == 'i');
}

/// A group of co-located apps and the pod-level resources they share.
pub struct PodManifest {
    pub ac_kind: ACKind,
    pub ac_version: ACVersion,
    pub annotations: Option<Vec<Annotation>>,
    pub apps: Vec<App>,
    pub isolators: Option<Vec<Isolator>>,
    pub ports: Option<Vec<Port>>,
    pub volumes: Option<Vec<Volume>>,
}

fn pm_scan_a(fields: &Vec<(String, Json)>, errs: &mut Vec<(String, Errors)>) -> (r: (
    Option<ACKind>,
    Option<ACVersion>,
    Option<Option<Vec<Annotation>>>,
))
    requires
        old(errs)@.len() == 0,
    ensures
        ent_keys(final(errs)@) == pod_manifest_bad_keys_a(fields@),
        forall|i: int|
            0 <= i < final(errs)@.len() ==> pod_manifest_field_err(
                fields@,
                (#[trigger] final(errs)@[i]).0@,
                final(errs)@[i].1,
            ) && !errors_empty(final(errs)@[i].1),
        match r.0 {
            Some(k) => pm_kind_valid(fields@) && k == ACKind::PodManifest,
            None => !pm_kind_valid(fields@),
        },
        match r.1 {
            Some(v) => req_valid::<ACVersion>(fields@, "acVersion"@) && req_value_rel::<ACVersion>(
                fields@,
                "acVersion"@,
                v,
            ),
            None => !req_valid::<ACVersion>(fields@, "acVersion"@),
        },
        match r.2 {
            Some(v) => opt_arr_valid::<Annotation>(fields@, "annotations"@)
                && opt_arr_value_rel::<Annotation>(fields@, "annotations"@, v),
            None => !opt_arr_valid::<Annotation>(fields@, "annotations"@),
        },
{
    proof {
        pod_manifest_keys_distinct();
    }
    let ac_kind = match required::<ACKind>(fields, &"acKind".to_owned()) {
        Ok(ACKind::PodManifest) => Some(ACKind::PodManifest),
        Ok(ACKind::ImageManifest) => {
            errs.push(("acKind".to_owned(), leaf("must be \"PodManifest\"")));
            None
        },
        Err(e) => {
            errs.push(("acKind".to_owned(), e));
            None
        },
    };
    let ac_version = field_required::<ACVersion>(fields, "acVersion", errs);
    let annotations = field_optional_array::<Annotation>(fields, "annotations", errs);
    proof {
        assert(ent_keys(errs@) =~= pod_manifest_bad_keys_a(fields@));
        assert(forall|i: int|
            0 <= i < errs@.len() ==> pod_manifest_field_err(
                fields@,
                (#[trigger] errs@[i]).0@,
                errs@[i].1,
            ) && !errors_empty(errs@[i].1));
    }
    (ac_kind, ac_version, annotations)
}

fn pm_scan_b(fields: &Vec<(String, Json)>, errs: &mut Vec<(String, Errors)>) -> (r: (
    Option<Vec<App>>,
    Option<Option<Vec<Isolator>>>,
    Option<Option<Vec<Port>>>,
    Option<Option<Vec<Volume>>>,
))
    ensures
        final(errs)@.len() >= old(errs)@.len(),
        forall|i: int| 0 <= i < old(errs)@.len() ==> #[trigger] final(errs)@[i] == old(errs)@[i],
        ent_keys(final(errs)@) == ent_keys(old(errs)@) + pod_manifest_bad_keys_b(fields@),
        forall|i: int|
            old(errs)@.len() <= i < final(errs)@.len() ==> pod_manifest_field_err(
                fields@,
                (#[trigger] final(errs)@[i]).0@,
                final(errs)@[i].1,
            ) && !errors_empty(final(errs)@[i].1),
        match r.0 {
            Some(vs) => pm_apps_valid(fields@) && pm_apps_value_rel(fields@, vs@),
            None => !pm_apps_valid(fields@),
        },
        match r.1 {
            Some(v) => opt_arr_valid::<Isolator>(fields@, "isolators"@)
                && opt_arr_value_rel::<Isolator>(fields@, "isolators"@, v),
            None => !opt_arr_valid::<Isolator>(fields@, "isolators"@),
        },
        match r.2 {
            Some(v) => opt_arr_valid::<Port>(fields@, "ports"@) && opt_arr_value_rel::<Port>(
                fields@,
                "ports"@,
                v,
            ),
            None => !opt_arr_valid::<Port>(fields@, "ports"@),
        },
        match r.3 {
            Some(v) => opt_arr_valid::<Volume>(fields@, "volumes"@) && opt_arr_value_rel::<Volume>(
                fields@,
                "volumes"@,
                v,
            ),
            None => !opt_arr_valid::<Volume>(fields@, "volumes"@),
        },
{
    proof {
        pod_manifest_keys_distinct();
    }
    let ghost base = errs@;
    let apps = match crate::json::lookup(fields, &"apps".to_owned()) {
        Some(j) => match array_of::<App>(j) {
            Ok(vs) => Some(vs),
            Err(e) => {
                errs.push(("apps".to_owned(), e));
                None
            },
        },
        None => {
            errs.push(("apps".to_owned(), leaf("must be defined")));
            None
        },
    };
    let isolators = field_optional_array::<Isolator>(fields, "isolators", errs);
    let ports = field_optional_array::<Port>(fields, "ports", errs);
    let volumes = field_optional_array::<Volume>(fields, "volumes", errs);
    proof {
        assert(forall|i: int| 0 <= i < base.len() ==> #[trigger] errs@[i] == base[i]);
        assert(ent_keys(errs@) =~= ent_keys(base) + pod_manifest_bad_keys_b(fields@));
        assert(forall|i: int|
            base.len() <= i < errs@.len() ==> pod_manifest_field_err(
                fields@,
                (#[trigger] errs@[i]).0@,
                errs@[i].1,
            ) && !errors_empty(errs@[i].1));
    }
    (apps, isolators, ports, volumes)
}

impl Parseable for PodManifest {
    open spec fn json_valid(j: Json) -> bool {
        match j {
            Json::Object(fields) => pod_manifest_fields_valid(fields@),
            _ => false,
        }
    }

    open spec fn value_rel(j: Json, v: PodManifest) -> bool {
        match j {
            Json::Object(fields) => {
                &&& v.ac_kind == ACKind::PodManifest
                &&& req_value_rel::<ACVersion>(fields@, "acVersion"@, v.ac_version)
                &&& opt_arr_value_rel::<Annotation>(fields@, "annotations"@, v.annotations)
                &&& pm_apps_value_rel(fields@, v.apps@)
                &&& opt_arr_value_rel::<Isolator>(fields@, "isolators"@, v.isolators)
                &&& opt_arr_value_rel::<Port>(fields@, "ports"@, v.ports)
                &&& opt_arr_value_rel::<Volume>(fields@, "volumes"@, v.volumes)
            },
            _ => false,
        }
    }

    open spec fn err_rel(j: Json, e: Errors) -> bool {
        match j {
            Json::Object(fields) => obj_err_rel(
                e,
                pod_manifest_bad_keys(fields@),
                |k: Seq<char>, se: Errors| pod_manifest_field_err(fields@, k, se),
            ),
            _ => is_leaf_msg(e, "must be an object"@),
        }
    }

    fn from_json(json: &Json) -> (r: ParseResult<PodManifest>) {
        match json {
            Json::Object(fields) => {
                let mut errs: Vec<(String, Errors)> = Vec::new();
                let (ac_kind, ac_version, annotations) = pm_scan_a(fields, &mut errs);
                let ghost mid = errs@;
                let (apps, isolators, ports, volumes) = pm_scan_b(fields, &mut errs);
                proof {
                    assert(ent_keys(errs@) == pod_manifest_bad_keys(fields@));
                    assert forall|i: int|
                        0 <= i < errs@.len() implies pod_manifest_field_err(
                        fields@,
                        (#[trigger] errs@[i]).0@,
                        errs@[i].1,
                    ) && !errors_empty(errs@[i].1) by {
                        if i < mid.len() {
                            assert(errs@[i] == mid[i]);
                            assert(pod_manifest_field_err(fields@, mid[i].0@, mid[i].1)
                                && !errors_empty(mid[i].1));
                        }
                    }
                }
                if errs.len() == 0 {
                    proof {
                        assert(ent_keys(errs@).len() == 0);
                    }
                    match (ac_kind, ac_version, annotations, apps, isolators, ports, volumes) {
                        (
                            Some(k_v),
                            Some(v_v),
                            Some(an_v),
                            Some(ap_v),
                            Some(is_v),
                            Some(po_v),
                            Some(vo_v),
                        ) => Ok(
                            PodManifest {
                                ac_kind: k_v,
                                ac_version: v_v,
                                annotations: an_v,
                                apps: ap_v,
                                isolators: is_v,
                                ports: po_v,
                                volumes: vo_v,
                            },
                        ),
                        _ => vstd::pervasive::unreached(),
                    }
                } else {
                    proof {
                        lemma_obj_err_not_empty(
                            Errors::Object(errs),
                            pod_manifest_bad_keys(fields@),
                            |k: Seq<char>, se: Errors| pod_manifest_field_err(fields@, k, se),
                        );
                    }
                    Err(Errors::Object(errs))
                }
            },
            _ => Err(leaf("must be an object")),
        }
    }
}


/// Every successfully validated pod manifest is internally well-formed: its
/// kind names this manifest type and every scheduled app's name obeys the AC
/// name rule.
pub proof fn lemma_pod_manifest_wf(j: Json, v: PodManifest)
    requires
        <PodManifest as Parseable>::json_valid(j),
        <PodManifest as Parseable>::value_rel(j, v),
    ensures
        v.ac_kind == ACKind::PodManifest,
        forall|i: int|
            0 <= i < v.apps@.len() ==> crate::types::valid_ac_name((#[trigger] v.apps@[i]).name@),
{
    let fields = j->Object_0@;
    let apps_json = spec_lookup(fields, "apps"@);
    assert forall|i: int|
        0 <= i < v.apps@.len() implies crate::types::valid_ac_name(
        (#[trigger] v.apps@[i]).name@,
    ) by {
        let elems = apps_json->0->Array_0@;
        assert(<App as Parseable>::json_valid(elems[i]));
        assert(<App as Parseable>::value_rel(elems[i], v.apps@[i]));
    }
}

} // verus!
