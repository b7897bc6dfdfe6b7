use podlet::cli::kube::{Kube, Play};
use podlet::file::File;
use podlet::quadlet;
use podlet::quadlet::Resource;

fn sample_play(file: &str) -> Play {
    Play {
        configmap: vec!["map.yaml".to_string()],
        log_driver: Some("journald".to_string()),
        network: vec!["pasta".to_string(), "bridge".to_string()],
        publish: vec!["8080:80".to_string()],
        userns: Some("auto".to_string()),
        file: File::parse(file),
    }
}

#[test]
fn play_normalizes_field_for_field() {
    let kube = quadlet::Kube::from(sample_play("pod.yaml"));
    assert_eq!(kube.config_map, vec!["map.yaml"]);
    assert_eq!(kube.log_driver, Some("journald".to_string()));
    assert_eq!(kube.network, vec!["pasta", "bridge"]);
    assert_eq!(kube.publish_port, vec!["8080:80"]);
    assert_eq!(kube.user_ns, Some("auto".to_string()));
    assert_eq!(kube.file, File::parse("pod.yaml"));
}

#[test]
fn kube_render_lists_every_populated_field() {
    let kube = quadlet::Kube::from(sample_play("pod.yaml"));
    assert_eq!(
        kube.render(),
        "[Kube]\nYaml=pod.yaml\nConfigMap=map.yaml\nLogDriver=journald\n\
         Network=pasta\nNetwork=bridge\nPublishPort=8080:80\nUserNS=auto\n"
    );
}

#[test]
fn kube_render_minimal_has_header_and_yaml_only() {
    let kube = quadlet::Kube {
        config_map: Vec::new(),
        log_driver: None,
        network: Vec::new(),
        publish_port: Vec::new(),
        user_ns: None,
        file: File::parse("https://example.com/test.yaml"),
    };
    assert_eq!(kube.render(), "[Kube]\nYaml=https://example.com/test.yaml\n");
}

#[test]
fn resource_render_matches_its_kind() {
    let kube = quadlet::Kube::from(sample_play("pod.yaml"));
    let rendered = kube.render();
    let resource = Resource::from(kube);
    assert_eq!(resource.render(), rendered);
}

#[test]
fn default_base_name_uses_file_stem() {
    let resource = Resource::Kube(quadlet::Kube::from(sample_play("pod.yaml")));
    assert_eq!(resource.default_base_name(), "pod");
}

#[test]
fn default_base_name_falls_back_to_pod() {
    // A URL without path segments derives no name at all.
    let resource = Resource::Kube(quadlet::Kube::from(sample_play("mailto:user@example.com")));
    assert_eq!(resource.default_base_name(), "pod");
    // A URL whose last segment is one bare extension derives an empty name.
    let resource = Resource::Kube(quadlet::Kube::from(sample_play("https://example.com/.yaml")));
    assert_eq!(resource.default_base_name(), "pod");
}

#[test]
fn kube_command_name_matches_default_base_name() {
    let command = Kube::Play { play: sample_play("https://example.com/test.yaml") };
    assert_eq!(command.name(), "test");
    let resource = Resource::from(command);
    assert_eq!(resource.default_base_name(), "test");
}
