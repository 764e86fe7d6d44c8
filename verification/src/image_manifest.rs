//! The image manifest: a single image's runtime contract.

pub mod app;
pub mod environment_variable;
pub mod event_handler;
pub mod mount_point;
pub mod port;

use vstd::prelude::*;

use crate::json::{spec_lookup, Json};
use crate::types::{is_parseable_url, is_rfc3339, ACIdentifier, ACKind, ACVersion, ImageID, Timestamps, UrlAddress};
use crate::image_manifest::app::App;
use crate::image_manifest::environment_variable::EnvironmentVariable;
use crate::image_manifest::event_handler::EventHandler;
use crate::image_manifest::mount_point::MountPoint;
use crate::image_manifest::port::Port;
use crate::types::Isolator;
use crate::util::{
    arr_err_rel, arr_valid, arr_value_rel, array_of,
    errors_empty, field_optional, field_optional_array, field_optional_u64_array, field_required,
    ent_keys, is_leaf_msg, key_if, leaf, lemma_obj_err_not_empty, obj_err_rel, opt_arr_err_rel,
    opt_arr_valid, opt_arr_value_rel, opt_err_rel, opt_u64_arr_err_rel, opt_u64_arr_valid,
    opt_u64_arr_value_rel, opt_u64_val, opt_u64_valid, opt_valid, opt_value_rel, optional,
    optional_array, optional_u64, optional_u64_array, req_err_rel, req_valid, req_value_rel,
    required, Errors, Parseable, ParseResult, StringWrapper,
};

verus! {

// ---------------------------------------------------------------------------
// Labels.
// ---------------------------------------------------------------------------
pub open spec fn label_fields_valid(fields: Seq<(String, Json)>) -> bool {
    &&& req_valid::<ACIdentifier>(fields, "name"@)
    &&& req_valid::<String>(fields, "value"@)
}

pub open spec fn label_bad_keys(fields: Seq<(String, Json)>) -> Seq<Seq<char>> {
    key_if("name"@, !req_valid::<ACIdentifier>(fields, "name"@)) + key_if(
        "value"@,
        !req_valid::<String>(fields, "value"@),
    )
}

pub open spec fn label_field_err(fields: Seq<(String, Json)>, k: Seq<char>, e: Errors) -> bool {
    if k == "name"@ {
        req_err_rel::<ACIdentifier>(fields, k, e)
    } else if k == "value"@ {
        req_err_rel::<String>(fields, k, e)
    } else {
        false
    }
}

proof fn label_keys_distinct()
    ensures
        "name"@ != "value"@,
{
    reveal_strlit("name");
    reveal_strlit("value");
    assert("name"@.len() == 4);
    assert("value"@.len() == 5);
}

/// A named, free-form string attached to an image or a dependency.
pub struct Label {
    pub name: ACIdentifier,
    pub value: String,
}

impl Parseable for Label {
    open spec fn json_valid(j: Json) -> bool {
        match j {
            Json::Object(fields) => label_fields_valid(fields@),
            _ => false,
        }
    }

    open spec fn value_rel(j: Json, v: Label) -> bool {
        match j {
            Json::Object(fields) => {
                &&& req_value_rel::<ACIdentifier>(fields@, "name"@, v.name)
                &&& req_value_rel::<String>(fields@, "value"@, v.value)
            },
            _ => false,
        }
    }

    open spec fn err_rel(j: Json, e: Errors) -> bool {
        match j {
            Json::Object(fields) => obj_err_rel(
                e,
                label_bad_keys(fields@),
                |k: Seq<char>, se: Errors| label_field_err(fields@, k, se),
            ),
            _ => is_leaf_msg(e, "must be an object"@),
        }
    }

    fn from_json(json: &Json) -> (r: ParseResult<Label>) {
        match json {
            Json::Object(fields) => {
                proof {
                    label_keys_distinct();
                }
                let mut errs: Vec<(String, Errors)> = Vec::new();
                let name = match required::<ACIdentifier>(fields, &"name".to_owned()) {
                    Ok(v) => Some(v),
                    Err(e) => {
                        errs.push(("name".to_owned(), e));
                        None
                    },
                };
                let value = match required::<String>(fields, &"value".to_owned()) {
                    Ok(v) => Some(v),
                    Err(e) => {
                        errs.push(("value".to_owned(), e));
                        None
                    },
                };
                if errs.len() == 0 {
                    match (name, value) {
                        (Some(n), Some(v)) => Ok(Label { name: n, value: v }),
                        _ => vstd::pervasive::unreached(),
                    }
                } else {
                    proof {
                        assert(ent_keys(errs@) =~= label_bad_keys(fields@));
                        lemma_obj_err_not_empty(
                            Errors::Object(errs),
                            label_bad_keys(fields@),
                            |k: Seq<char>, se: Errors| label_field_err(fields@, k, se),
                        );
                    }
                    Err(Errors::Object(errs))
                }
            },
            _ => Err(leaf("must be an object")),
        }
    }
}

// ---------------------------------------------------------------------------
// Dependencies.
// ---------------------------------------------------------------------------
pub open spec fn dependency_fields_valid(fields: Seq<(String, Json)>) -> bool {
    &&& opt_valid::<ImageID>(fields, "imageID"@)
    &&& req_valid::<ACIdentifier>(fields, "imageName"@)
    &&& opt_arr_valid::<Label>(fields, "labels"@)
    &&& opt_u64_valid(fields, "size"@)
}

pub open spec fn dependency_bad_keys(fields: Seq<(String, Json)>) -> Seq<Seq<char>> {
    key_if("imageID"@, !opt_valid::<ImageID>(fields, "imageID"@)) + key_if(
        "imageName"@,
        !req_valid::<ACIdentifier>(fields, "imageName"@),
    ) + key_if("labels"@, !opt_arr_valid::<Label>(fields, "labels"@)) + key_if(
        "size"@,
        !opt_u64_valid(fields, "size"@),
    )
}

pub open spec fn dependency_field_err(
    fields: Seq<(String, Json)>,
    k: Seq<char>,
    e: Errors,
) -> bool {
    if k == "imageID"@ {
        opt_err_rel::<ImageID>(fields, k, e)
    } else if k == "imageName"@ {
        req_err_rel::<ACIdentifier>(fields, k, e)
    } else if k == "labels"@ {
        opt_arr_err_rel::<Label>(fields, k, e)
    } else if k == "size"@ {
        is_leaf_msg(e, "must be a positive integer"@)
    } else {
        false
    }
}

proof fn dependency_keys_distinct()
    ensures
        "imageID"@ != "imageName"@,
        "imageID"@ != "labels"@,
        "imageID"@ != "size"@,
        "imageName"@ != "labels"@,
        "imageName"@ != "size"@,
        "labels"@ != "size"@,
{
    reveal_strlit("imageID");
    reveal_strlit("imageName");
    reveal_strlit("labels");
    reveal_strlit("size");
    assert("imageID"@.len() == 7);
    assert("imageName"@.len() == 9);
    assert("labels"@.len() == 6);
    assert("size"@.len() == 4);
}

/// Another image this image depends on, by name, and optionally by exact
/// content address, matching labels and size.
pub struct Dependency {
    pub image_id: Option<ImageID>,
    pub image_name: ACIdentifier,
    pub labels: Option<Vec<Label>>,
    pub size: Option<u64>,
}

impl Parseable for Dependency {
    open spec fn json_valid(j: Json) -> bool {
        match j {
            Json::Object(fields) => dependency_fields_valid(fields@),
            _ => false,
        }
    }

    open spec fn value_rel(j: Json, v: Dependency) -> bool {
        match j {
            Json::Object(fields) => {
                &&& opt_value_rel::<ImageID>(fields@, "imageID"@, v.image_id)
                &&& req_value_rel::<ACIdentifier>(fields@, "imageName"@, v.image_name)
                &&& opt_arr_value_rel::<Label>(fields@, "labels"@, v.labels)
                &&& v.size == opt_u64_val(fields@, "size"@)
            },
            _ => false,
        }
    }

    open spec fn err_rel(j: Json, e: Errors) -> bool {
        match j {
            Json::Object(fields) => obj_err_rel(
                e,
                dependency_bad_keys(fields@),
                |k: Seq<char>, se: Errors| dependency_field_err(fields@, k, se),
            ),
            _ => is_leaf_msg(e, "must be an object"@),
        }
    }

    fn from_json(json: &Json) -> (r: ParseResult<Dependency>) {
        match json {
            Json::Object(fields) => {
                proof {
                    dependency_keys_distinct();
                }
                let mut errs: Vec<(String, Errors)> = Vec::new();
                let image_id = match optional::<ImageID>(fields, &"imageID".to_owned()) {
                    Ok(v) => Some(v),
                    Err(e) => {
                        errs.push(("imageID".to_owned(), e));
                        None
                    },
                };
                let image_name = match required::<ACIdentifier>(fields, &"imageName".to_owned()) {
                    Ok(v) => Some(v),
                    Err(e) => {
                        errs.push(("imageName".to_owned(), e));
                        None
                    },
                };
                let labels = match optional_array::<Label>(fields, &"labels".to_owned()) {
                    Ok(v) => Some(v),
                    Err(e) => {
                        errs.push(("labels".to_owned(), e));
                        None
                    },
                };
                let size = match optional_u64(fields, &"size".to_owned()) {
                    Ok(v) => Some(v),
                    Err(e) => {
                        errs.push(("size".to_owned(), e));
                        None
                    },
                };
                if errs.len() == 0 {
                    match (image_id, image_name, labels, size) {
                        (Some(id), Some(n), Some(ls), Some(sz)) => Ok(
                            Dependency { image_id: id, image_name: n, labels: ls, size: sz },
                        ),
                        _ => vstd::pervasive::unreached(),
                    }
                } else {
                    proof {
                        assert(ent_keys(errs@) =~= dependency_bad_keys(fields@));
                        lemma_obj_err_not_empty(
                            Errors::Object(errs),
                            dependency_bad_keys(fields@),
                            |k: Seq<char>, se: Errors| dependency_field_err(fields@, k, se),
                        );
                    }
                    Err(Errors::Object(errs))
                }
            },
            _ => Err(leaf("must be an object")),
        }
    }
}


// ---------------------------------------------------------------------------
// Annotations.
// ---------------------------------------------------------------------------
/// The raw string under `name`, before any format check: the annotation's
/// payload rule is selected by this string.
pub open spec fn annotation_name_str(fields: Seq<(String, Json)>) -> Option<Seq<char>> {
    match spec_lookup(fields, "name"@) {
        Some(Json::String(s)) => Some(s@),
        _ => None,
    }
}

/// The payload rule: `created` takes an RFC3339 timestamp, `documentation`
/// and `homepage` take URLs, and every other name takes a free string.
pub open spec fn annotation_payload_ok(n: Option<Seq<char>>, v: Seq<char>) -> bool {
    match n {
        Some(name) => {
            if name == "created"@ {
                is_rfc3339(v)
            } else if name == "documentation"@ || name == "homepage"@ {
                is_parseable_url(v)
            } else {
                true
            }
        },
        None => true,
    }
}

pub open spec fn annotation_value_valid(fields: Seq<(String, Json)>) -> bool {
    match spec_lookup(fields, "value"@) {
        Some(Json::String(v)) => annotation_payload_ok(annotation_name_str(fields), v@),
        _ => false,
    }
}

pub open spec fn annotation_value_err(fields: Seq<(String, Json)>, e: Errors) -> bool {
    match spec_lookup(fields, "value"@) {
        None => is_leaf_msg(e, "must be defined"@),
        Some(Json::String(v)) => match annotation_name_str(fields) {
            Some(name) => {
                if name == "created"@ {
                    !is_rfc3339(v@) && is_leaf_msg(e, "must be a valid RFC3339 timestamp"@)
                } else if name == "documentation"@ || name == "homepage"@ {
                    !is_parseable_url(v@) && is_leaf_msg(e, "must be a valid URL"@)
                } else {
                    false
                }
            },
            None => false,
        },
        Some(_) => is_leaf_msg(e, "must be a string"@),
    }
}

pub open spec fn annotation_fields_valid(fields: Seq<(String, Json)>) -> bool {
    &&& req_valid::<ACIdentifier>(fields, "name"@)
    &&& annotation_value_valid(fields)
}

pub open spec fn annotation_bad_keys(fields: Seq<(String, Json)>) -> Seq<Seq<char>> {
    key_if("name"@, !req_valid::<ACIdentifier>(fields, "name"@)) + key_if(
        "value"@,
        !annotation_value_valid(fields),
    )
}

pub open spec fn annotation_field_err(
    fields: Seq<(String, Json)>,
    k: Seq<char>,
    e: Errors,
) -> bool {
    if k == "name"@ {
        req_err_rel::<ACIdentifier>(fields, k, e)
    } else if k == "value"@ {
        annotation_value_err(fields, e)
    } else {
        false
    }
}

proof fn annotation_keys_distinct()
    ensures
        "name"@ != "value"@,
        "authors"@ != "created"@,
        "authors"@ != "documentation"@,
        "authors"@ != "homepage"@,
        "created"@ != "documentation"@,
        "created"@ != "homepage"@,
        "documentation"@ != "homepage"@,
{
    reveal_strlit("name");
    reveal_strlit("value");
    reveal_strlit("authors");
    reveal_strlit("created");
    reveal_strlit("documentation");
    reveal_strlit("homepage");
    assert("name"@.len() == 4);
    assert("value"@.len() == 5);
    assert("authors"@.len() == 7);
    assert("created"@.len() == 7);
    assert("documentation"@.len() == 13);
    assert("homepage"@.len() == 8);
    assert("authors"@[0] == 'a');
    assert("created"@[0] == 'c');
}

/// A named annotation whose payload type follows from its name: the four
/// well-known names select typed payloads, any other name a free string.
#[allow(inconsistent_fields)]
pub enum Annotation {
    Authors { name: ACIdentifier, value: String },
    Created { name: ACIdentifier, value: Timestamps },
    Documentation { name: ACIdentifier, value: UrlAddress },
    Homepage { name: ACIdentifier, value: UrlAddress },
    Normal { name: ACIdentifier, value: String },
}

impl Parseable for Annotation {
    open spec fn json_valid(j: Json) -> bool {
        match j {
            Json::Object(fields) => annotation_fields_valid(fields@),
            _ => false,
        }
    }

    open spec fn value_rel(j: Json, a: Annotation) -> bool {
        match j {
            Json::Object(fields) => match spec_lookup(fields@, "value"@) {
                Some(Json::String(val)) => match a {
                    Annotation::Authors { name, value } => {
                        &&& annotation_name_str(fields@) == Some("authors"@)
                        &&& name@ == "authors"@
                        &&& value@ == val@
                    },
                    Annotation::Created { name, value } => {
                        &&& annotation_name_str(fields@) == Some("created"@)
                        &&& name@ == "created"@
                        &&& value@ == val@
                    },
                    Annotation::Documentation { name, value } => {
                        &&& annotation_name_str(fields@) == Some("documentation"@)
                        &&& name@ == "documentation"@
                        &&& value@ == val@
                    },
                    Annotation::Homepage { name, value } => {
                        &&& annotation_name_str(fields@) == Some("homepage"@)
                        &&& name@ == "homepage"@
                        &&& value@ == val@
                    },
                    Annotation::Normal { name, value } => match annotation_name_str(fields@) {
                        Some(ns) => {
                            &&& name@ == ns
                            &&& ns != "authors"@
                            &&& ns != "created"@
                            &&& ns != "documentation"@
                            &&& ns != "homepage"@
                            &&& value@ == val@
                        },
                        None => false,
                    },
                },
                _ => false,
            },
            _ => false,
        }
    }

    open spec fn err_rel(j: Json, e: Errors) -> bool {
        match j {
            Json::Object(fields) => obj_err_rel(
                e,
                annotation_bad_keys(fields@),
                |k: Seq<char>, se: Errors| annotation_field_err(fields@, k, se),
            ),
            _ => is_leaf_msg(e, "must be an object"@),
        }
    }

    fn from_json(json: &Json) -> (r: ParseResult<Annotation>) {
        match json {
            Json::Object(fields) => {
                proof {
                    annotation_keys_distinct();
                }
                let mut errs: Vec<(String, Errors)> = Vec::new();
                let name = match required::<ACIdentifier>(fields, &"name".to_owned()) {
                    Ok(v) => Some(v),
                    Err(e) => {
                        errs.push(("name".to_owned(), e));
                        None
                    },
                };
                let payload: Option<AnnotationValue> = match crate::json::lookup(
                    fields,
                    &"value".to_owned(),
                ) {
                    None => {
                        errs.push(("value".to_owned(), leaf("must be defined")));
                        None
                    },
                    Some(vj) => match vj {
                        Json::String(vs) => match crate::json::lookup(fields, &"name".to_owned()) {
                            Some(Json::String(ns)) => {
                                if *ns == "authors".to_owned() {
                                    Some(AnnotationValue::Authors(vs.clone()))
                                } else if *ns == "created".to_owned() {
                                    match Timestamps::from_string(vs) {
                                        Ok(t) => Some(AnnotationValue::Created(t)),
                                        Err(e) => {
                                            errs.push(("value".to_owned(), e));
                                            None
                                        },
                                    }
                                } else if *ns == "documentation".to_owned() {
                                    match UrlAddress::from_string(vs) {
                                        Ok(u) => Some(AnnotationValue::Documentation(u)),
                                        Err(e) => {
                                            errs.push(("value".to_owned(), e));
                                            None
                                        },
                                    }
                                } else if *ns == "homepage".to_owned() {
                                    match UrlAddress::from_string(vs) {
                                        Ok(u) => Some(AnnotationValue::Homepage(u)),
                                        Err(e) => {
                                            errs.push(("value".to_owned(), e));
                                            None
                                        },
                                    }
                                } else {
                                    Some(AnnotationValue::Normal(vs.clone()))
                                }
                            },
                            _ => Some(AnnotationValue::Normal(vs.clone())),
                        },
                        _ => {
                            errs.push(("value".to_owned(), leaf("must be a string")));
                            None
                        },
                    },
                };
                if errs.len() == 0 {
                    match (name, payload) {
                        (Some(n), Some(p)) => Ok(
                            match p {
                                AnnotationValue::Authors(v) => Annotation::Authors {
                                    name: n,
                                    value: v,
                                },
                                AnnotationValue::Created(v) => Annotation::Created {
                                    name: n,
                                    value: v,
                                },
                                AnnotationValue::Documentation(v) => Annotation::Documentation {
                                    name: n,
                                    value: v,
                                },
                                AnnotationValue::Homepage(v) => Annotation::Homepage {
                                    name: n,
                                    value: v,
                                },
                                AnnotationValue::Normal(v) => Annotation::Normal {
                                    name: n,
                                    value: v,
                                },
                            },
                        ),
                        _ => vstd::pervasive::unreached(),
                    }
                } else {
                    proof {
                        assert(ent_keys(errs@) =~= annotation_bad_keys(fields@));
                        lemma_obj_err_not_empty(
                            Errors::Object(errs),
                            annotation_bad_keys(fields@),
                            |k: Seq<char>, se: Errors| annotation_field_err(fields@, k, se),
                        );
                    }
                    Err(Errors::Object(errs))
                }
            },
            _ => Err(leaf("must be an object")),
        }
    }
}

/// A validated annotation payload, before it is joined with its name.
enum AnnotationValue {
    Authors(String),
    Created(Timestamps),
    Documentation(UrlAddress),
    Homepage(UrlAddress),
    Normal(String),
}


// ---------------------------------------------------------------------------
// The image manifest.
// ---------------------------------------------------------------------------
/// The `acKind` of an image manifest must not merely be a well-formed kind:
/// it must name this manifest type.  A well-formed `PodManifest` here is a
/// distinct mismatch failure, not a format failure.
pub open spec fn im_kind_valid(fields: Seq<(String, Json)>) -> bool {
    match spec_lookup(fields, "acKind"@) {
        Some(Json::String(s)) => s@ == "ImageManifest"@,
        _ => false,
    }
}

pub open spec fn im_kind_err(fields: Seq<(String, Json)>, e: Errors) -> bool {
    match spec_lookup(fields, "acKind"@) {
        None => is_leaf_msg(e, "must be defined"@),
        Some(Json::String(s)) => {
            if s@ == "PodManifest"@ {
                is_leaf_msg(e, "must be \"ImageManifest\""@)
            } else {
                s@ != "ImageManifest"@ && is_leaf_msg(
                    e,
                    "must be one of \"ImageManifest\" or \"PodManifest\""@,
                )
            }
        },
        Some(_) => is_leaf_msg(e, "must be a string"@),
    }
}

pub open spec fn im_pw_valid(fields: Seq<(String, Json)>) -> bool {
    match spec_lookup(fields, "pathWhitelist"@) {
        Some(j) => arr_valid::<String>(j),
        None => false,
    }
}

pub open spec fn im_pw_value_rel(fields: Seq<(String, Json)>, vs: Seq<String>) -> bool {
    match spec_lookup(fields, "pathWhitelist"@) {
        Some(j) => arr_value_rel::<String>(j, vs),
        None => false,
    }
}

pub open spec fn im_pw_err(fields: Seq<(String, Json)>, e: Errors) -> bool {
    match spec_lookup(fields, "pathWhitelist"@) {
        Some(j) => arr_err_rel::<String>(j, e),
        None => is_leaf_msg(e, "must be defined"@),
    }
}

pub open spec fn image_manifest_fields_valid(fields: Seq<(String, Json)>) -> bool {
    &&& im_kind_valid(fields)
    &&& req_valid::<ACVersion>(fields, "acVersion"@)
    &&& opt_arr_valid::<Annotation>(fields, "annotations"@)
    &&& opt_valid::<App>(fields, "app"@)
    &&& opt_arr_valid::<Dependency>(fields, "dependencies"@)
    &&& opt_arr_valid::<Label>(fields, "labels"@)
    &&& req_valid::<ACIdentifier>(fields, "name"@)
    &&& im_pw_valid(fields)
}

pub open spec fn image_manifest_bad_keys_a(fields: Seq<(String, Json)>) -> Seq<Seq<char>> {
    key_if("acKind"@, !im_kind_valid(fields)) + key_if(
        "acVersion"@,
        !req_valid::<ACVersion>(fields, "acVersion"@),
    ) + key_if("annotations"@, !opt_arr_valid::<Annotation>(fields, "annotations"@)) + key_if(
        "app"@,
        !opt_valid::<App>(fields, "app"@),
    )
}

pub open spec fn image_manifest_bad_keys_b(fields: Seq<(String, Json)>) -> Seq<Seq<char>> {
    key_if("dependencies"@, !opt_arr_valid::<Dependency>(fields, "dependencies"@)) + key_if(
        "labels"@,
        !opt_arr_valid::<Label>(fields, "labels"@),
    ) + key_if("name"@, !req_valid::<ACIdentifier>(fields, "name"@)) + key_if(
        "pathWhitelist"@,
        !im_pw_valid(fields),
    )
}

pub open spec fn image_manifest_bad_keys(fields: Seq<(String, Json)>) -> Seq<Seq<char>> {
    image_manifest_bad_keys_a(fields) + image_manifest_bad_keys_b(fields)
}

pub open spec fn image_manifest_field_err(
    fields: Seq<(String, Json)>,
    k: Seq<char>,
    e: Errors,
) -> bool {
    if k == "acKind"@ {
        im_kind_err(fields, e)
    } else if k == "acVersion"@ {
        req_err_rel::<ACVersion>(fields, k, e)
    } else if k == "annotations"@ {
        opt_arr_err_rel::<Annotation>(fields, k, e)
    } else if k == "app"@ {
        opt_err_rel::<App>(fields, k, e)
    } else if k == "dependencies"@ {
        opt_arr_err_rel::<Dependency>(fields, k, e)
    } else if k == "labels"@ {
        opt_arr_err_rel::<Label>(fields, k, e)
    } else if k == "name"@ {
        req_err_rel::<ACIdentifier>(fields, k, e)
    } else if k == "pathWhitelist"@ {
        im_pw_err(fields, e)
    } else {
        false
    }
}

proof fn image_manifest_keys_distinct()
    ensures
        "acKind"@ != "acVersion"@,
        "acKind"@ != "annotations"@,
        "acKind"@ != "app"@,
        "acKind"@ != "dependencies"@,
        "acKind"@ != "labels"@,
        "acKind"@ != "name"@,
        "acKind"@ != "pathWhitelist"@,
        "acVersion"@ != "annotations"@,
        "acVersion"@ != "app"@,
        "acVersion"@ != "dependencies"@,
        "acVersion"@ != "labels"@,
        "acVersion"@ != "name"@,
        "acVersion"@ != "pathWhitelist"@,
        "annotations"@ != "app"@,
        "annotations"@ != "dependencies"@,
        "annotations"@ != "labels"@,
        "annotations"@ != "name"@,
        "annotations"@ != "pathWhitelist"@,
        "app"@ != "dependencies"@,
        "app"@ != "labels"@,
        "app"@ != "name"@,
        "app"@ != "pathWhitelist"@,
        "dependencies"@ != "labels"@,
        "dependencies"@ != "name"@,
        "dependencies"@ != "pathWhitelist"@,
        "labels"@ != "name"@,
        "labels"@ != "pathWhitelist"@,
        "name"@ != "pathWhitelist"@,
{
    reveal_strlit("acKind");
    reveal_strlit("acVersion");
    reveal_strlit("annotations");
    reveal_strlit("app");
    reveal_strlit("dependencies");
    reveal_strlit("labels");
    reveal_strlit("name");
    reveal_strlit("pathWhitelist");
    assert("acKind"@.len() == 6);
    assert("acVersion"@.len() == 9);
    assert("annotations"@.len() == 11);
    assert("app"@.len() == 3);
    assert("dependencies"@.len() == 12);
    assert("labels"@.len() == 6);
    assert("name"@.len() == 4);
    assert("pathWhitelist"@.len() == 13);
    assert("acKind"@[0] == 'a');
    assert("labels"@[0] == 'l');
}

/// A single image's runtime contract.
pub struct ImageManifest {
    pub ac_kind: ACKind,
    pub ac_version: ACVersion,
    pub annotations: Option<Vec<Annotation>>,
    pub app: Option<App>,
    pub dependencies: Option<Vec<Dependency>>,
    pub labels: Option<Vec<Label>>,
    pub name: ACIdentifier,
    pub path_whitelist: Vec<String>,
}

fn im_scan_a(fields: &Vec<(String, Json)>, errs: &mut Vec<(String, Errors)>) -> (r: (
    Option<ACKind>,
    Option<ACVersion>,
    Option<Option<Vec<Annotation>>>,
    Option<Option<App>>,
))
    requires
        old(errs)@.len() == 0,
    ensures
        ent_keys(final(errs)@) == image_manifest_bad_keys_a(fields@),
        forall|i: int|
            0 <= i < final(errs)@.len() ==> image_manifest_field_err(
                fields@,
                (#[trigger] final(errs)@[i]).0@,
                final(errs)@[i].1,
            ) && !errors_empty(final(errs)@[i].1),
        match r.0 {
            Some(k) => im_kind_valid(fields@) && k == ACKind::ImageManifest,
            None => !im_kind_valid(fields@),
        },
        match r.1 {
            Some(v) => req_valid::<ACVersion>(fields@, "acVersion"@) && req_value_rel::<ACVersion>(
                fields@,
                "acVersion"@,
                v,
            ),
            None => !req_valid::<ACVersion>(fields@, "acVersion"@),
        },
        match r.2 {
            Some(v) => opt_arr_valid::<Annotation>(fields@, "annotations"@)
                && opt_arr_value_rel::<Annotation>(fields@, "annotations"@, v),
            None => !opt_arr_valid::<Annotation>(fields@, "annotations"@),
        },
        match r.3 {
            Some(v) => opt_valid::<App>(fields@, "app"@) && opt_value_rel::<App>(
                fields@,
                "app"@,
                v,
            ),
            None => !opt_valid::<App>(fields@, "app"@),
        },
{
    proof {
        image_manifest_keys_distinct();
    }
    let ac_kind = match required::<ACKind>(fields, &"acKind".to_owned()) {
        Ok(ACKind::ImageManifest) => Some(ACKind::ImageManifest),
        Ok(ACKind::PodManifest) => {
            errs.push(("acKind".to_owned(), leaf("must be \"ImageManifest\"")));
            None
        },
        Err(e) => {
            errs.push(("acKind".to_owned(), e));
            None
        },
    };
    let ac_version = field_required::<ACVersion>(fields, "acVersion", errs);
    let annotations = field_optional_array::<Annotation>(fields, "annotations", errs);
    let app = field_optional::<App>(fields, "app", errs);
    proof {
        assert(ent_keys(errs@) =~= image_manifest_bad_keys_a(fields@));
        assert(forall|i: int|
            0 <= i < errs@.len() ==> image_manifest_field_err(
                fields@,
                (#[trigger] errs@[i]).0@,
                errs@[i].1,
            ) && !errors_empty(errs@[i].1));
    }
    (ac_kind, ac_version, annotations, app)
}

fn im_scan_b(fields: &Vec<(String, Json)>, errs: &mut Vec<(String, Errors)>) -> (r: (
    Option<Option<Vec<Dependency>>>,
    Option<Option<Vec<Label>>>,
    Option<ACIdentifier>,
    Option<Vec<String>>,
))
    ensures
        final(errs)@.len() >= old(errs)@.len(),
        forall|i: int| 0 <= i < old(errs)@.len() ==> #[trigger] final(errs)@[i] == old(errs)@[i],
        ent_keys(final(errs)@) == ent_keys(old(errs)@) + image_manifest_bad_keys_b(fields@),
        forall|i: int|
            old(errs)@.len() <= i < final(errs)@.len() ==> image_manifest_field_err(
                fields@,
                (#[trigger] final(errs)@[i]).0@,
                final(errs)@[i].1,
            ) && !errors_empty(final(errs)@[i].1),
        match r.0 {
            Some(v) => opt_arr_valid::<Dependency>(fields@, "dependencies"@)
                && opt_arr_value_rel::<Dependency>(fields@, "dependencies"@, v),
            None => !opt_arr_valid::<Dependency>(fields@, "dependencies"@),
        },
        match r.1 {
            Some(v) => opt_arr_valid::<Label>(fields@, "labels"@) && opt_arr_value_rel::<Label>(
                fields@,
                "labels"@,
                v,
            ),
            None => !opt_arr_valid::<Label>(fields@, "labels"@),
        },
        match r.2 {
            Some(v) => req_valid::<ACIdentifier>(fields@, "name"@) && req_value_rel::<
                ACIdentifier,
            >(fields@, "name"@, v),
            None => !req_valid::<ACIdentifier>(fields@, "name"@),
        },
        match r.3 {
            Some(vs) => im_pw_valid(fields@) && im_pw_value_rel(fields@, vs@),
            None => !im_pw_valid(fields@),
        },
{
    proof {
        image_manifest_keys_distinct();
    }
    let ghost base = errs@;
    let dependencies = field_optional_array::<Dependency>(fields, "dependencies", errs);
    let labels = field_optional_array::<Label>(fields, "labels", errs);
    let name = field_required::<ACIdentifier>(fields, "name", errs);
    let path_whitelist = match crate::json::lookup(fields, &"pathWhitelist".to_owned()) {
        Some(j) => match array_of::<String>(j) {
            Ok(vs) => Some(vs),
            Err(e) => {
                errs.push(("pathWhitelist".to_owned(), e));
                None
            },
        },
        None => {
            errs.push(("pathWhitelist".to_owned(), leaf("must be defined")));
            None
        },
    };
    proof {
        assert(forall|i: int| 0 <= i < base.len() ==> #[trigger] errs@[i] == base[i]);
        assert(ent_keys(errs@) =~= ent_keys(base) + image_manifest_bad_keys_b(fields@));
        assert(forall|i: int|
            base.len() <= i < errs@.len() ==> image_manifest_field_err(
                fields@,
                (#[trigger] errs@[i]).0@,
                errs@[i].1,
            ) && !errors_empty(errs@[i].1));
    }
    (dependencies, labels, name, path_whitelist)
}

impl Parseable for ImageManifest {
    open spec fn json_valid(j: Json) -> bool {
        match j {
            Json::Object(fields) => image_manifest_fields_valid(fields@),
            _ => false,
        }
    }

    open spec fn value_rel(j: Json, v: ImageManifest) -> bool {
        match j {
            Json::Object(fields) => {
                &&& v.ac_kind == ACKind::ImageManifest
                &&& req_value_rel::<ACVersion>(fields@, "acVersion"@, v.ac_version)
                &&& opt_arr_value_rel::<Annotation>(fields@, "annotations"@, v.annotations)
                &&& opt_value_rel::<App>(fields@, "app"@, v.app)
                &&& opt_arr_value_rel::<Dependency>(fields@, "dependencies"@, v.dependencies)
                &&& opt_arr_value_rel::<Label>(fields@, "labels"@, v.labels)
                &&& req_value_rel::<ACIdentifier>(fields@, "name"@, v.name)
                &&& im_pw_value_rel(fields@, v.path_whitelist@)
            },
            _ => false,
        }
    }

    open spec fn err_rel(j: Json, e: Errors) -> bool {
        match j {
            Json::Object(fields) => obj_err_rel(
                e,
                image_manifest_bad_keys(fields@),
                |k: Seq<char>, se: Errors| image_manifest_field_err(fields@, k, se),
            ),
            _ => is_leaf_msg(e, "must be an object"@),
        }
    }

    fn from_json(json: &Json) -> (r: ParseResult<ImageManifest>) {
        match json {
            Json::Object(fields) => {
                let mut errs: Vec<(String, Errors)> = Vec::new();
                let (ac_kind, ac_version, annotations, app) = im_scan_a(fields, &mut errs);
                let ghost mid = errs@;
                let (dependencies, labels, name, path_whitelist) = im_scan_b(fields, &mut errs);
                proof {
                    assert(ent_keys(errs@) == image_manifest_bad_keys(fields@));
                    assert forall|i: int|
                        0 <= i < errs@.len() implies image_manifest_field_err(
                        fields@,
                        (#[trigger] errs@[i]).0@,
                        errs@[i].1,
                    ) && !errors_empty(errs@[i].1) by {
                        if i < mid.len() {
                            assert(errs@[i] == mid[i]);
                            assert(image_manifest_field_err(fields@, mid[i].0@, mid[i].1)
                                && !errors_empty(mid[i].1));
                        }
                    }
                }
                if errs.len() == 0 {
                    proof {
                        assert(ent_keys(errs@).len() == 0);
                    }
                    match (ac_kind, ac_version, annotations, app, dependencies, labels, name, path_whitelist) {
                        (Some(k_v), Some(v_v), Some(an_v), Some(ap_v), Some(d_v), Some(l_v), Some(n_v), Some(pw_v)) => Ok(ImageManifest {
                            ac_kind: k_v,
                            ac_version: v_v,
                            annotations: an_v,
                            app: ap_v,
                            dependencies: d_v,
                            labels: l_v,
                            name: n_v,
                            path_whitelist: pw_v,
                        }),
                        _ => vstd::pervasive::unreached(),
                    }
                } else {
                    proof {
                        lemma_obj_err_not_empty(
                            Errors::Object(errs),
                            image_manifest_bad_keys(fields@),
                            |k: Seq<char>, se: Errors| image_manifest_field_err(fields@, k, se),
                        );
                    }
                    Err(Errors::Object(errs))
                }
            },
            _ => Err(leaf("must be an object")),
        }
    }
}


/// A JSON object that lacks the required `name` field never validates as an
/// image manifest, and every failure tree it can produce carries an entry at
/// `name` whose message is exactly "must be defined": no successful partial
/// object is observable.
pub proof fn lemma_missing_name_reported(j: Json, e: Errors)
    requires
        j is Object,
        spec_lookup(j->Object_0@, "name"@) is None,
        <ImageManifest as Parseable>::err_rel(j, e),
    ensures
        !<ImageManifest as Parseable>::json_valid(j),
        exists|i: int|
            {
                &&& 0 <= i < e->Object_0@.len()
                &&& (#[trigger] e->Object_0@[i]).0@ == "name"@
                &&& is_leaf_msg(e->Object_0@[i].1, "must be defined"@)
            },
{
    image_manifest_keys_distinct();
    let fields = j->Object_0@;
    let ents = e->Object_0@;
    let keys = image_manifest_bad_keys(fields);
    assert(ent_keys(ents) == keys);
    let i0: int = image_manifest_bad_keys_a(fields).len() as int + key_if(
        "dependencies"@,
        !opt_arr_valid::<Dependency>(fields, "dependencies"@),
    ).len() as int + key_if("labels"@, !opt_arr_valid::<Label>(fields, "labels"@)).len() as int;
    assert(keys[i0] == "name"@);
    assert(ents[i0].0@ == "name"@);
    assert(image_manifest_field_err(fields, "name"@, ents[i0].1));
    assert(is_leaf_msg(ents[i0].1, "must be defined"@));
}


/// Every successfully validated image manifest is internally well-formed:
/// its kind names this manifest type and its name obeys the AC identifier
/// rule.  There is no partially valid state: these hold of every value the
/// validator can construct.
pub proof fn lemma_image_manifest_wf(j: Json, v: ImageManifest)
    requires
        <ImageManifest as Parseable>::json_valid(j),
        <ImageManifest as Parseable>::value_rel(j, v),
    ensures
        v.ac_kind == ACKind::ImageManifest,
        crate::types::valid_ac_identifier(v.name@),
{
}

} // verus!
