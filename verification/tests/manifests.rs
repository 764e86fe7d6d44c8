use appc_manifest::image_manifest::app::App;
use appc_manifest::image_manifest::environment_variable::{EnvironmentVariable,
    EnvironmentVariableName};
use appc_manifest::image_manifest::event_handler::{exec_from_json, EventHandler,
    EventHandlerName};
use appc_manifest::image_manifest::mount_point::MountPoint;
use appc_manifest::image_manifest::port::Port;
use appc_manifest::image_manifest::{Annotation, Dependency, ImageManifest, Label};
use appc_manifest::json::Json;
use appc_manifest::pod_manifest::volume::Volume;
use appc_manifest::pod_manifest::{Kind, PodManifest};
use appc_manifest::types::{HashAlgorithm, Isolator};
use appc_manifest::util::{merge_into, Errors, Parseable, StringWrapper};

fn s(v: &str) -> Json {
    Json::String(v.to_string())
}

fn n(v: u64) -> Json {
    Json::U64(v)
}

fn b(v: bool) -> Json {
    Json::Boolean(v)
}

fn arr(elems: Vec<Json>) -> Json {
    Json::Array(elems)
}

fn obj(pairs: Vec<(&str, Json)>) -> Json {
    Json::Object(pairs.into_iter().map(|(k, v)| (k.to_string(), v)).collect())
}

fn entries(e: &Errors) -> &Vec<(String, Errors)> {
    match e {
        Errors::Object(ents) => ents,
        _ => panic!("expected an object error"),
    }
}

fn leaf_message(e: &Errors) -> String {
    match e {
        Errors::Node(msgs) => {
            assert_eq!(msgs.len(), 1);
            msgs[0].clone()
        }
        _ => panic!("expected a leaf error"),
    }
}

#[test]
fn environment_variable_round_trips_values() {
    let v = EnvironmentVariable::from_json(&obj(vec![
        ("name", s("REDUCE_WORKER_DEBUG")),
        ("value", s("true")),
    ]))
    .ok()
    .expect("must validate");
    assert_eq!(v.name.as_str(), "REDUCE_WORKER_DEBUG");
    assert_eq!(v.value, "true");
}

#[test]
fn environment_variable_name_rule() {
    assert!(EnvironmentVariableName::from_string(&"PATH_2".to_string()).is_ok());
    let e = EnvironmentVariableName::from_string(&"2PATH".to_string()).err().expect("must fail");
    assert_eq!(leaf_message(&e), "has invalid formatting.");
    assert!(EnvironmentVariableName::from_string(&"A-B".to_string()).is_err());
}

#[test]
fn environment_variable_missing_fields_are_both_reported() {
    let e = EnvironmentVariable::from_json(&obj(vec![])).err().expect("must fail");
    let ents = entries(&e);
    assert_eq!(ents.len(), 2);
    assert_eq!(ents[0].0, "name");
    assert_eq!(leaf_message(&ents[0].1), "must be defined");
    assert_eq!(ents[1].0, "value");
    assert_eq!(leaf_message(&ents[1].1), "must be defined");
}

#[test]
fn event_handler_names_are_exact() {
    assert!(matches!(
        EventHandlerName::from_string(&"pre-start".to_string()),
        Ok(EventHandlerName::PreStart)
    ));
    assert!(matches!(
        EventHandlerName::from_string(&"post-stop".to_string()),
        Ok(EventHandlerName::PostStop)
    ));
    let e = EventHandlerName::from_string(&"post-start".to_string()).err().expect("must fail");
    assert_eq!(leaf_message(&e), "must be a valid event handler name.");
}

#[test]
fn exec_array_slots_mirror_the_input() {
    let e = exec_from_json(&arr(vec![s("/bin/reduce"), n(5), s("--verbose")]))
        .err()
        .expect("must fail");
    match e {
        Errors::Array(slots) => {
            assert_eq!(slots.len(), 3);
            assert!(slots[0].is_none());
            assert_eq!(leaf_message(slots[1].as_ref().expect("slot must be filled")), "must be a string");
            assert!(slots[2].is_none());
        }
        _ => panic!("expected a sequence error"),
    }
    let ok = exec_from_json(&arr(vec![s("/bin/reduce"), s("--verbose")])).ok().expect("must validate");
    assert_eq!(ok, vec!["/bin/reduce".to_string(), "--verbose".to_string()]);
}

#[test]
fn event_handler_round_trips() {
    let v = EventHandler::from_json(&obj(vec![
        ("name", s("pre-start")),
        ("exec", arr(vec![s("/bin/setup"), s("-q")])),
    ]))
    .ok()
    .expect("must validate");
    assert!(matches!(v.name, EventHandlerName::PreStart));
    assert_eq!(v.exec_args, vec!["/bin/setup".to_string(), "-q".to_string()]);
}

#[test]
fn mount_point_read_only_defaults_to_false() {
    let v = MountPoint::from_json(&obj(vec![("name", s("work")), ("path", s("/var/lib/work"))]))
        .ok()
        .expect("must validate");
    assert!(!v.read_only);
    let v = MountPoint::from_json(&obj(vec![
        ("name", s("work")),
        ("path", s("/var/lib/work")),
        ("readOnly", b(true)),
    ]))
    .ok()
    .expect("must validate");
    assert!(v.read_only);
}

#[test]
fn port_defaults_apply_when_fields_are_omitted() {
    let v = Port::from_json(&obj(vec![
        ("name", s("http")),
        ("port", n(80)),
        ("protocol", s("tcp")),
    ]))
    .ok()
    .expect("must validate");
    assert_eq!(v.count, 1);
    assert!(!v.socket_activated);
    assert_eq!(v.port, 80);
    assert_eq!(v.protocol, "tcp");
}

#[test]
fn port_range_is_enforced() {
    let e = Port::from_json(&obj(vec![
        ("name", s("http")),
        ("port", n(0)),
        ("protocol", s("tcp")),
    ]))
    .err()
    .expect("must fail");
    let ents = entries(&e);
    assert_eq!(ents.len(), 1);
    assert_eq!(ents[0].0, "port");
    assert_eq!(leaf_message(&ents[0].1), "must be >= 1 and <= 65535");
    assert!(Port::from_json(&obj(vec![
        ("name", s("http")),
        ("port", n(65536)),
        ("protocol", s("tcp")),
    ]))
    .is_err());
}

#[test]
fn port_count_lower_bound() {
    let e = Port::from_json(&obj(vec![
        ("count", n(0)),
        ("name", s("http")),
        ("port", n(80)),
        ("protocol", s("tcp")),
    ]))
    .err()
    .expect("must fail");
    let ents = entries(&e);
    assert_eq!(ents.len(), 1);
    assert_eq!(ents[0].0, "count");
    assert_eq!(leaf_message(&ents[0].1), "must be >= 1");
}

#[test]
fn port_missing_required_field_is_reported_at_its_path() {
    let e = Port::from_json(&obj(vec![("name", s("http")), ("protocol", s("tcp"))]))
        .err()
        .expect("must fail");
    let ents = entries(&e);
    assert_eq!(ents.len(), 1);
    assert_eq!(ents[0].0, "port");
    assert_eq!(leaf_message(&ents[0].1), "must be defined");
}

#[test]
fn isolator_keeps_its_value_verbatim() {
    let v = Isolator::from_json(&obj(vec![
        ("name", s("resource/memory")),
        ("value", obj(vec![("limit", s("1G"))])),
    ]))
    .ok()
    .expect("must validate");
    match &v.value {
        Json::Object(fields) => {
            assert_eq!(fields.len(), 1);
            assert_eq!(fields[0].0, "limit");
            assert!(matches!(&fields[0].1, Json::String(x) if x == "1G"));
        }
        _ => panic!("expected the object to be kept"),
    }
}

#[test]
fn label_and_dependency_validate() {
    assert!(Label::from_json(&obj(vec![("name", s("os")), ("value", s("linux"))])).is_ok());
    let d = Dependency::from_json(&obj(vec![
        ("imageID", s("sha512-abc123")),
        ("imageName", s("example.com/base")),
        ("labels", arr(vec![obj(vec![("name", s("os")), ("value", s("linux"))])])),
        ("size", n(22017258)),
    ]))
    .ok()
    .expect("must validate");
    assert_eq!(d.image_name.as_str(), "example.com/base");
    assert_eq!(d.size, Some(22017258));
    assert_eq!(d.labels.expect("labels kept").len(), 1);
    let d = Dependency::from_json(&obj(vec![("imageName", s("example.com/base"))]))
        .ok()
        .expect("must validate");
    assert!(d.image_id.is_none());
    assert!(d.labels.is_none());
    assert!(d.size.is_none());
}

#[test]
fn annotation_payload_follows_its_name() {
    assert!(matches!(
        Annotation::from_json(&obj(vec![
            ("name", s("created")),
            ("value", s("2023-01-02T03:04:05Z")),
        ])),
        Ok(Annotation::Created { .. })
    ));
    assert!(matches!(
        Annotation::from_json(&obj(vec![
            ("name", s("homepage")),
            ("value", s("http://example.com/")),
        ])),
        Ok(Annotation::Homepage { .. })
    ));
    assert!(matches!(
        Annotation::from_json(&obj(vec![("name", s("authors")), ("value", s("Carol <c@example.com>"))])),
        Ok(Annotation::Authors { .. })
    ));
    assert!(matches!(
        Annotation::from_json(&obj(vec![("name", s("ik-kv-version")), ("value", s("anything at all"))])),
        Ok(Annotation::Normal { .. })
    ));
}

#[test]
fn annotation_typed_payloads_are_checked() {
    let e = Annotation::from_json(&obj(vec![("name", s("created")), ("value", s("yesterday"))]))
        .err()
        .expect("must fail");
    let ents = entries(&e);
    assert_eq!(ents.len(), 1);
    assert_eq!(ents[0].0, "value");
    assert_eq!(leaf_message(&ents[0].1), "must be a valid RFC3339 timestamp");
    let e = Annotation::from_json(&obj(vec![("name", s("documentation")), ("value", s("no url"))]))
        .err()
        .expect("must fail");
    assert_eq!(leaf_message(&entries(&e)[0].1), "must be a valid URL");
}

#[test]
fn minimal_image_manifest_validates_end_to_end() {
    let m = ImageManifest::from_json(&obj(vec![
        ("acKind", s("ImageManifest")),
        ("acVersion", s("1.2.3")),
        ("name", s("example.com/reduce-worker")),
        ("pathWhitelist", arr(vec![])),
    ]))
    .ok()
    .expect("must validate");
    assert_eq!(
        (m.ac_version.major, m.ac_version.minor, m.ac_version.patch),
        (1, 2, 3)
    );
    assert_eq!(m.name.as_str(), "example.com/reduce-worker");
    assert!(m.app.is_none());
    assert!(m.dependencies.is_none());
    assert!(m.labels.is_none());
    assert!(m.annotations.is_none());
    assert_eq!(m.path_whitelist.len(), 0);
}

#[test]
fn image_manifest_reports_port_error_at_its_path() {
    let e = ImageManifest::from_json(&obj(vec![
        ("acKind", s("ImageManifest")),
        ("acVersion", s("1.2.3")),
        ("app", obj(vec![(
            "ports",
            arr(vec![obj(vec![
                ("name", s("http")),
                ("port", n(0)),
                ("protocol", s("tcp")),
            ])]),
        )])),
        ("name", s("example.com/reduce-worker")),
        ("pathWhitelist", arr(vec![])),
    ]))
    .err()
    .expect("must fail");
    let ents = entries(&e);
    assert_eq!(ents.len(), 1);
    assert_eq!(ents[0].0, "app");
    let app_ents = entries(&ents[0].1);
    assert_eq!(app_ents.len(), 1);
    assert_eq!(app_ents[0].0, "ports");
    match &app_ents[0].1 {
        Errors::Array(slots) => {
            assert_eq!(slots.len(), 1);
            let port_ents = entries(slots[0].as_ref().expect("the element must fail"));
            assert_eq!(port_ents.len(), 1);
            assert_eq!(port_ents[0].0, "port");
            assert_eq!(leaf_message(&port_ents[0].1), "must be >= 1 and <= 65535");
        }
        _ => panic!("expected a sequence error for the ports array"),
    }
}

#[test]
fn image_manifest_rejects_pod_kind_as_mismatch() {
    let e = ImageManifest::from_json(&obj(vec![
        ("acKind", s("PodManifest")),
        ("acVersion", s("1.2.3")),
        ("name", s("example.com/reduce-worker")),
        ("pathWhitelist", arr(vec![])),
    ]))
    .err()
    .expect("must fail");
    let ents = entries(&e);
    assert_eq!(ents.len(), 1);
    assert_eq!(ents[0].0, "acKind");
    assert_eq!(leaf_message(&ents[0].1), "must be \"ImageManifest\"");
}

#[test]
fn app_collects_every_field_and_keeps_absence() {
    let a = App::from_json(&obj(vec![
        ("environment", arr(vec![obj(vec![("name", s("DEBUG")), ("value", s("1"))])])),
        ("exec", arr(vec![s("/bin/reduce")])),
        ("supplementaryGids", arr(vec![n(5), n(7)])),
        ("user", s("100")),
    ]))
    .ok()
    .expect("must validate");
    assert_eq!(a.environment.expect("kept").len(), 1);
    assert_eq!(a.exec_args.expect("kept"), vec!["/bin/reduce".to_string()]);
    assert_eq!(a.supplementary_gids.expect("kept"), vec![5, 7]);
    assert_eq!(a.user.expect("kept"), "100");
    assert!(a.group.is_none());
    assert!(a.event_handlers.is_none());
    assert!(a.isolators.is_none());
    assert!(a.mount_points.is_none());
    assert!(a.ports.is_none());
    assert!(a.working_directory.is_none());
}

#[test]
fn app_distinguishes_empty_from_absent() {
    let a = App::from_json(&obj(vec![("exec", arr(vec![]))])).ok().expect("must validate");
    assert_eq!(a.exec_args.expect("present and empty").len(), 0);
    let a = App::from_json(&obj(vec![])).ok().expect("must validate");
    assert!(a.exec_args.is_none());
}

#[test]
fn app_gid_elements_are_validated_independently() {
    let e = App::from_json(&obj(vec![("supplementaryGids", arr(vec![n(5), s("x"), n(7)]))]))
        .err()
        .expect("must fail");
    let ents = entries(&e);
    assert_eq!(ents.len(), 1);
    assert_eq!(ents[0].0, "supplementaryGids");
    match &ents[0].1 {
        Errors::Array(slots) => {
            assert_eq!(slots.len(), 3);
            assert!(slots[0].is_none());
            assert_eq!(leaf_message(slots[1].as_ref().expect("filled")), "must be a positive integer");
            assert!(slots[2].is_none());
        }
        _ => panic!("expected a sequence error"),
    }
}

#[test]
fn volume_kind_rule() {
    assert!(matches!(Kind::from_string(&"empty".to_string()), Ok(Kind::Empty)));
    assert!(matches!(Kind::from_string(&"host".to_string()), Ok(Kind::Host)));
    let e = Kind::from_string(&"tmpfs".to_string()).err().expect("must fail");
    assert_eq!(leaf_message(&e), "must be one of \"empty\" or \"host\"");
}

#[test]
fn volume_requires_its_fields() {
    let v = Volume::from_json(&obj(vec![
        ("gid", n(0)),
        ("kind", s("host")),
        ("mode", s("0755")),
        ("name", s("work")),
        ("readOnly", b(false)),
        ("source", s("/var/lib/work")),
        ("uid", n(0)),
    ]))
    .ok()
    .expect("must validate");
    assert!(matches!(v.kind, Kind::Host));
    assert_eq!(v.source.expect("kept"), "/var/lib/work");
    let e = Volume::from_json(&obj(vec![("name", s("work"))])).err().expect("must fail");
    let keys: Vec<String> = entries(&e).iter().map(|p| p.0.clone()).collect();
    assert_eq!(keys, vec!["gid", "kind", "mode", "readOnly", "uid"]);
}

#[test]
fn minimal_pod_manifest_validates_end_to_end() {
    let m = PodManifest::from_json(&obj(vec![
        ("acKind", s("PodManifest")),
        ("acVersion", s("0.8.11")),
        ("apps", arr(vec![obj(vec![
            ("image", obj(vec![("id", s("sha512-deadbeef"))])),
            ("name", s("reduce-worker")),
        ])])),
    ]))
    .ok()
    .expect("must validate");
    assert_eq!(m.apps.len(), 1);
    assert_eq!(m.apps[0].name.as_str(), "reduce-worker");
    assert!(matches!(m.apps[0].image.id.hash, HashAlgorithm::SHA512));
    assert!(m.annotations.is_none());
    assert!(m.isolators.is_none());
    assert!(m.ports.is_none());
    assert!(m.volumes.is_none());
}

#[test]
fn pod_manifest_rejects_image_kind_as_mismatch() {
    let e = PodManifest::from_json(&obj(vec![
        ("acKind", s("ImageManifest")),
        ("acVersion", s("0.8.11")),
        ("apps", arr(vec![])),
    ]))
    .err()
    .expect("must fail");
    let ents = entries(&e);
    assert_eq!(ents.len(), 1);
    assert_eq!(ents[0].0, "acKind");
    assert_eq!(leaf_message(&ents[0].1), "must be \"PodManifest\"");
}

#[test]
fn pod_image_labels_are_kept_verbatim() {
    let m = PodManifest::from_json(&obj(vec![
        ("acKind", s("PodManifest")),
        ("acVersion", s("0.8.11")),
        ("apps", arr(vec![obj(vec![
            ("image", obj(vec![
                ("id", s("sha512-deadbeef")),
                ("labels", arr(vec![obj(vec![("name", s("os")), ("value", s("linux"))])])),
            ])),
            ("name", s("reduce-worker")),
        ])])),
    ]))
    .ok()
    .expect("must validate");
    let labels = m.apps[0].image.labels.as_ref().expect("kept");
    assert_eq!(labels.len(), 1);
    assert!(matches!(&labels[0], Json::Object(_)));
}

#[test]
fn non_object_input_fails_immediately() {
    let e = Port::from_json(&s("http")).err().expect("must fail");
    assert_eq!(leaf_message(&e), "must be an object");
    let e = PodManifest::from_json(&Json::Null).err().expect("must fail");
    assert_eq!(leaf_message(&e), "must be an object");
}

#[test]
fn object_lookup_takes_the_first_binding() {
    let v = MountPoint::from_json(&Json::Object(vec![
        ("name".to_string(), s("first")),
        ("name".to_string(), s("UPPER")),
        ("path".to_string(), s("/tmp/x")),
    ]))
    .ok()
    .expect("must validate");
    assert_eq!(v.name.as_str(), "first");
}


#[test]
fn non_array_collection_field_is_rejected() {
    let e = App::from_json(&obj(vec![("environment", s("PATH=/bin"))])).err().expect("must fail");
    let ents = entries(&e);
    assert_eq!(ents.len(), 1);
    assert_eq!(ents[0].0, "environment");
    assert_eq!(leaf_message(&ents[0].1), "must be an array");
}

#[test]
fn emptiness_is_recursive() {
    assert!(Errors::Node(vec![]).is_empty());
    assert!(!Errors::Node(vec!["boom".to_string()]).is_empty());
    // a mapping and a sequence whose every slot is empty are both empty
    let deep = Errors::Object(vec![(
        "inner".to_string(),
        Errors::Array(vec![None, Some(Errors::Node(vec![]))]),
    )]);
    assert!(deep.is_empty());
    let deep = Errors::Object(vec![(
        "inner".to_string(),
        Errors::Array(vec![None, Some(Errors::Node(vec!["boom".to_string()]))]),
    )]);
    assert!(!deep.is_empty());
}

#[test]
fn merging_an_empty_child_is_a_no_op() {
    let mut parent: Vec<(String, Errors)> = Vec::new();
    merge_into(&mut parent, "quiet", Errors::Object(vec![]));
    assert_eq!(parent.len(), 0);
    merge_into(&mut parent, "loud", Errors::Node(vec!["boom".to_string()]));
    assert_eq!(parent.len(), 1);
    assert_eq!(parent[0].0, "loud");
}


#[test]
fn wrong_scalar_types_are_named() {
    let e = MountPoint::from_json(&obj(vec![
        ("name", s("work")),
        ("path", s("/w")),
        ("readOnly", s("yes")),
    ]))
    .err()
    .expect("must fail");
    let ents = entries(&e);
    assert_eq!(ents[0].0, "readOnly");
    assert_eq!(leaf_message(&ents[0].1), "must be a boolean");
    let e = Port::from_json(&obj(vec![
        ("name", s("http")),
        ("port", s("80")),
        ("protocol", s("tcp")),
    ]))
    .err()
    .expect("must fail");
    let ents = entries(&e);
    assert_eq!(ents[0].0, "port");
    assert_eq!(leaf_message(&ents[0].1), "must be a positive integer");
}
