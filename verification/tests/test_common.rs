use std::str::FromStr;

use github_actions_models::common::{
    bool_is_string, null_to_default, reusable_step_uses, scalar_or_vector, step_uses, BoS,
    DockerUses, EnvValue, If, LocalUses, RepositoryUses, SoV, Uses, UsesError,
};
use github_actions_models::decode::{Decode, DecodeError, Shape};
use github_actions_models::value::Value;

/// The tree of a YAML document.
fn yaml(text: &str) -> Value {
    let parsed: serde_yaml::Value = serde_yaml::from_str(text).unwrap();
    tree(&parsed)
}

fn tree(value: &serde_yaml::Value) -> Value {
    match value {
        serde_yaml::Value::Null => Value::Null,
        serde_yaml::Value::Bool(b) => Value::Bool(*b),
        serde_yaml::Value::Number(n) => {
            if let Some(u) = n.as_u64() {
                Value::Integer(u as i128)
            } else if let Some(i) = n.as_i64() {
                Value::Integer(i as i128)
            } else {
                Value::Real(n.to_string())
            }
        }
        serde_yaml::Value::String(s) => Value::String(s.clone()),
        serde_yaml::Value::Sequence(items) => Value::Sequence(items.iter().map(tree).collect()),
        serde_yaml::Value::Mapping(entries) => {
            Value::Mapping(entries.iter().map(|(k, v)| (tree(k), tree(v))).collect())
        }
        serde_yaml::Value::Tagged(tagged) => {
            Value::Tagged(tagged.tag.to_string(), Box::new(tree(&tagged.value)))
        }
    }
}

fn text(s: &str) -> Value {
    Value::String(s.to_owned())
}

#[test]
fn test_uses_parses() {
    let vectors = [
        (
            // Valid: fully pinned.
            "actions/checkout@8f4b7f84864484a7bf31766abe9204da3cbe65b3",
            Ok(Uses::Repository(RepositoryUses {
                owner: "actions".to_owned(),
                repo: "checkout".to_owned(),
                subpath: None,
                git_ref: Some("8f4b7f84864484a7bf31766abe9204da3cbe65b3".to_owned()),
            })),
        ),
        (
            // Valid: fully pinned, subpath
            "actions/aws/ec2@8f4b7f84864484a7bf31766abe9204da3cbe65b3",
            Ok(Uses::Repository(RepositoryUses {
                owner: "actions".to_owned(),
                repo: "aws".to_owned(),
                subpath: Some("ec2".to_owned()),
                git_ref: Some("8f4b7f84864484a7bf31766abe9204da3cbe65b3".to_owned()),
            })),
        ),
        (
            // Valid: fully pinned, complex subpath
            "example/foo/bar/baz/quux@8f4b7f84864484a7bf31766abe9204da3cbe65b3",
            Ok(Uses::Repository(RepositoryUses {
                owner: "example".to_owned(),
                repo: "foo".to_owned(),
                subpath: Some("bar/baz/quux".to_owned()),
                git_ref: Some("8f4b7f84864484a7bf31766abe9204da3cbe65b3".to_owned()),
            })),
        ),
        (
            // Valid: pinned with branch/tag
            "actions/checkout@v4",
            Ok(Uses::Repository(RepositoryUses {
                owner: "actions".to_owned(),
                repo: "checkout".to_owned(),
                subpath: None,
                git_ref: Some("v4".to_owned()),
            })),
        ),
        (
            "actions/checkout@abcd",
            Ok(Uses::Repository(RepositoryUses {
                owner: "actions".to_owned(),
                repo: "checkout".to_owned(),
                subpath: None,
                git_ref: Some("abcd".to_owned()),
            })),
        ),
        (
            // Valid: unpinned
            "actions/checkout",
            Ok(Uses::Repository(RepositoryUses {
                owner: "actions".to_owned(),
                repo: "checkout".to_owned(),
                subpath: None,
                git_ref: None,
            })),
        ),
        (
            // Valid: Docker ref, implicit registry
            "docker://alpine:3.8",
            Ok(Uses::Docker(DockerUses {
                registry: None,
                image: "alpine".to_owned(),
                tag: Some("3.8".to_owned()),
                hash: None,
            })),
        ),
        (
            // Valid: Docker ref, localhost
            "docker://localhost/alpine:3.8",
            Ok(Uses::Docker(DockerUses {
                registry: Some("localhost".to_owned()),
                image: "alpine".to_owned(),
                tag: Some("3.8".to_owned()),
                hash: None,
            })),
        ),
        (
            // Valid: Docker ref, localhost w/ port
            "docker://localhost:1337/alpine:3.8",
            Ok(Uses::Docker(DockerUses {
                registry: Some("localhost:1337".to_owned()),
                image: "alpine".to_owned(),
                tag: Some("3.8".to_owned()),
                hash: None,
            })),
        ),
        (
            // Valid: Docker ref, custom registry
            "docker://ghcr.io/foo/alpine:3.8",
            Ok(Uses::Docker(DockerUses {
                registry: Some("ghcr.io".to_owned()),
                image: "foo/alpine".to_owned(),
                tag: Some("3.8".to_owned()),
                hash: None,
            })),
        ),
        (
            // Valid: Docker ref, missing tag
            "docker://ghcr.io/foo/alpine",
            Ok(Uses::Docker(DockerUses {
                registry: Some("ghcr.io".to_owned()),
                image: "foo/alpine".to_owned(),
                tag: None,
                hash: None,
            })),
        ),
        (
            // Invalid, but allowed: Docker ref, empty tag
            "docker://ghcr.io/foo/alpine:",
            Ok(Uses::Docker(DockerUses {
                registry: Some("ghcr.io".to_owned()),
                image: "foo/alpine".to_owned(),
                tag: None,
                hash: None,
            })),
        ),
        (
            // Valid: Docker ref, bare
            "docker://alpine",
            Ok(Uses::Docker(DockerUses {
                registry: None,
                image: "alpine".to_owned(),
                tag: None,
                hash: None,
            })),
        ),
        (
            // Valid: Docker ref, hash
            "docker://alpine@hash",
            Ok(Uses::Docker(DockerUses {
                registry: None,
                image: "alpine".to_owned(),
                tag: None,
                hash: Some("hash".to_owned()),
            })),
        ),
        (
            // Valid: Local action "ref", actually part of the path
            "./.github/actions/hello-world-action@172239021f7ba04fe7327647b213799853a9eb89",
            Ok(Uses::Local(LocalUses {
                path: "./.github/actions/hello-world-action@172239021f7ba04fe7327647b213799853a9eb89".to_owned(),
            })),
        ),
        (
            // Valid: Local action ref, unpinned
            "./.github/actions/hello-world-action",
            Ok(Uses::Local(LocalUses {
                path: "./.github/actions/hello-world-action".to_owned(),
            })),
        ),
        // Invalid: missing user/repo
        (
            "checkout@8f4b7f84864484a7bf31766abe9204da3cbe65b3",
            Err(UsesError(
                "owner/repo slug is too short: checkout@8f4b7f84864484a7bf31766abe9204da3cbe65b3".to_owned()
            )),
        ),
    ];

    for (input, expected) in vectors {
        assert_eq!(input.parse(), expected);
    }
}

#[test]
fn test_uses_deser_reusable() {
    let vectors = [
        // Valid, as expected.
        (
            "octo-org/this-repo/.github/workflows/workflow-1.yml@\
             172239021f7ba04fe7327647b213799853a9eb89",
            Some(Uses::Repository(RepositoryUses {
                owner: "octo-org".to_owned(),
                repo: "this-repo".to_owned(),
                subpath: Some(".github/workflows/workflow-1.yml".to_owned()),
                git_ref: Some("172239021f7ba04fe7327647b213799853a9eb89".to_owned()),
            })),
        ),
        (
            "octo-org/this-repo/.github/workflows/workflow-1.yml@notahash",
            Some(Uses::Repository(RepositoryUses {
                owner: "octo-org".to_owned(),
                repo: "this-repo".to_owned(),
                subpath: Some(".github/workflows/workflow-1.yml".to_owned()),
                git_ref: Some("notahash".to_owned()),
            })),
        ),
        (
            "octo-org/this-repo/.github/workflows/workflow-1.yml@abcd",
            Some(Uses::Repository(RepositoryUses {
                owner: "octo-org".to_owned(),
                repo: "this-repo".to_owned(),
                subpath: Some(".github/workflows/workflow-1.yml".to_owned()),
                git_ref: Some("abcd".to_owned()),
            })),
        ),
        // Invalid: remote reusable workflow without ref
        ("octo-org/this-repo/.github/workflows/workflow-1.yml", None),
        // Invalid: local reusable workflow with ref
        (
            "./.github/workflows/workflow-1.yml@172239021f7ba04fe7327647b213799853a9eb89",
            None,
        ),
        // Invalid: no ref at all
        ("octo-org/this-repo/.github/workflows/workflow-1.yml", None),
        (".github/workflows/workflow-1.yml", None),
        // Invalid: missing user/repo
        (
            "workflow-1.yml@172239021f7ba04fe7327647b213799853a9eb89",
            None,
        ),
    ];

    for (input, expected) in vectors {
        assert_eq!(reusable_step_uses(&yaml(input)).ok(), expected);
    }
}

#[test]
fn test_env_empty_value() {
    let env = yaml("foo:");
    let value = null_to_default::<String>(env.get("foo").unwrap()).unwrap();
    assert_eq!(EnvValue::String(value), EnvValue::String("".into()));
}

#[test]
fn uses_reference_vectors() {
    assert_eq!(
        Uses::from_str("actions/checkout@v4"),
        Ok(Uses::Repository(RepositoryUses {
            owner: "actions".into(),
            repo: "checkout".into(),
            subpath: None,
            git_ref: Some("v4".into()),
        }))
    );
    assert_eq!(
        Uses::from_str("actions/aws/ec2@abcd"),
        Ok(Uses::Repository(RepositoryUses {
            owner: "actions".into(),
            repo: "aws".into(),
            subpath: Some("ec2".into()),
            git_ref: Some("abcd".into()),
        }))
    );
    assert_eq!(
        Uses::from_str("checkout@v4"),
        Err(UsesError("owner/repo slug is too short: checkout@v4".into()))
    );
    assert_eq!(
        Uses::from_str("docker://alpine:3.8"),
        Ok(Uses::Docker(DockerUses {
            registry: None,
            image: "alpine".into(),
            tag: Some("3.8".into()),
            hash: None,
        }))
    );
    assert_eq!(
        Uses::from_str("docker://ghcr.io/foo/alpine"),
        Ok(Uses::Docker(DockerUses {
            registry: Some("ghcr.io".into()),
            image: "foo/alpine".into(),
            tag: None,
            hash: None,
        }))
    );
    assert_eq!(
        Uses::from_str("docker://alpine@sha"),
        Ok(Uses::Docker(DockerUses {
            registry: None,
            image: "alpine".into(),
            tag: None,
            hash: Some("sha".into()),
        }))
    );
    assert_eq!(
        Uses::from_str("./.github/actions/x@weird"),
        Ok(Uses::Local(LocalUses { path: "./.github/actions/x@weird".into() }))
    );
}

#[test]
fn repository_ref_is_what_follows_the_last_at() {
    assert_eq!(
        RepositoryUses::from_str("owner/repo/path@with/at@main"),
        Ok(RepositoryUses {
            owner: "owner".into(),
            repo: "repo".into(),
            subpath: Some("path@with/at".into()),
            git_ref: Some("main".into()),
        })
    );
    // A `/` after the last `@` belongs to the ref, not to the slug.
    assert_eq!(
        RepositoryUses::from_str("owner@feature/x"),
        Err(UsesError("owner/repo slug is too short: owner@feature/x".into()))
    );
    assert_eq!(
        RepositoryUses::from_str("owner/repo@"),
        Ok(RepositoryUses {
            owner: "owner".into(),
            repo: "repo".into(),
            subpath: None,
            git_ref: Some("".into()),
        })
    );
    assert_eq!(
        RepositoryUses::from_str("owner/repo/"),
        Ok(RepositoryUses {
            owner: "owner".into(),
            repo: "repo".into(),
            subpath: Some("".into()),
            git_ref: None,
        })
    );
    assert_eq!(
        RepositoryUses::from_str(""),
        Err(UsesError("owner/repo slug is too short: ".into()))
    );
}

#[test]
fn docker_registry_is_recognised_by_its_first_segment() {
    assert!(DockerUses::is_registry("localhost"));
    assert!(DockerUses::is_registry("ghcr.io"));
    assert!(DockerUses::is_registry("localhost:1337"));
    assert!(DockerUses::is_registry("host:5000"));
    assert!(!DockerUses::is_registry("foo"));
    assert!(!DockerUses::is_registry("localhos"));
    assert!(!DockerUses::is_registry("localhostx"));
    assert!(!DockerUses::is_registry(""));

    // No `/`: the first segment is the image, whatever it looks like.
    assert_eq!(
        DockerUses::from_str("ghcr.io"),
        Ok(DockerUses { registry: None, image: "ghcr.io".into(), tag: None, hash: None })
    );
    // The first segment names no registry: it belongs to the image.
    assert_eq!(
        DockerUses::from_str("foo/alpine:3.8"),
        Ok(DockerUses {
            registry: None,
            image: "foo/alpine".into(),
            tag: Some("3.8".into()),
            hash: None,
        })
    );
}

#[test]
fn docker_hash_wins_over_tag() {
    assert_eq!(
        DockerUses::from_str("alpine:3.8@sha256:abcd"),
        Ok(DockerUses {
            registry: None,
            image: "alpine:3.8".into(),
            tag: None,
            hash: Some("sha256:abcd".into()),
        })
    );
    // A bare `@` at the end means no hash, and no tag is looked for.
    assert_eq!(
        DockerUses::from_str("alpine:3.8@"),
        Ok(DockerUses { registry: None, image: "alpine:3.8".into(), tag: None, hash: None })
    );
    assert_eq!(
        DockerUses::from_str("alpine:"),
        Ok(DockerUses { registry: None, image: "alpine".into(), tag: None, hash: None })
    );
    assert_eq!(
        DockerUses::from_str(""),
        Ok(DockerUses { registry: None, image: "".into(), tag: None, hash: None })
    );
}

#[test]
fn local_reference_keeps_the_whole_text() {
    assert_eq!(
        LocalUses::from_str("./a@b/c@d"),
        Ok(LocalUses { path: "./a@b/c@d".into() })
    );
}

#[test]
fn uses_error_message() {
    let error = Uses::from_str("checkout@v4").unwrap_err();
    assert_eq!(
        error.message(),
        "malformed `uses` ref: owner/repo slug is too short: checkout@v4"
    );
}

#[test]
fn step_uses_decodes_strings_only() {
    assert_eq!(
        step_uses(&text("./local")),
        Ok(Uses::Local(LocalUses { path: "./local".into() }))
    );
    assert_eq!(step_uses(&Value::Bool(true)), Err(DecodeError::Expected(Shape::String)));
    assert_eq!(
        step_uses(&text("nothing")),
        Err(DecodeError::MalformedUses(UsesError(
            "owner/repo slug is too short: nothing".into()
        )))
    );
    // An ordinary step may refer to a Docker image and to an unpinned repository.
    assert!(step_uses(&text("docker://alpine")).is_ok());
    assert!(step_uses(&text("owner/repo")).is_ok());
}

#[test]
fn reusable_uses_rules() {
    assert_eq!(
        reusable_step_uses(&text("owner/repo/path.yml")),
        Err(DecodeError::UnpinnedRepository)
    );
    assert_eq!(reusable_step_uses(&text("./path.yml@abcd")), Err(DecodeError::PinnedLocal));
    assert_eq!(
        reusable_step_uses(&text("docker://alpine")),
        Err(DecodeError::DockerNotReusable)
    );
    assert_eq!(
        reusable_step_uses(&text("owner/repo/path.yml@abcd")),
        Ok(Uses::Repository(RepositoryUses {
            owner: "owner".into(),
            repo: "repo".into(),
            subpath: Some("path.yml".into()),
            git_ref: Some("abcd".into()),
        }))
    );
    assert_eq!(
        reusable_step_uses(&text("./path.yml")),
        Ok(Uses::Local(LocalUses { path: "./path.yml".into() }))
    );
    assert_eq!(
        reusable_step_uses(&text("path.yml@abcd")),
        Err(DecodeError::MalformedUses(UsesError(
            "owner/repo slug is too short: path.yml@abcd".into()
        )))
    );
    assert_eq!(reusable_step_uses(&Value::Null), Err(DecodeError::Expected(Shape::String)));
}

#[test]
fn reusable_check_on_a_parsed_reference() {
    let pinned = Uses::from_str("owner/repo@v1").unwrap();
    assert_eq!(pinned.reusable(), Ok(Uses::from_str("owner/repo@v1").unwrap()));
    let unpinned = Uses::from_str("owner/repo").unwrap();
    assert_eq!(unpinned.reusable(), Err(DecodeError::UnpinnedRepository));
}

#[test]
fn reusable_error_messages() {
    assert_eq!(
        DecodeError::UnpinnedRepository.message(),
        "repo action must have `@<ref>` in reusable workflow"
    );
    assert_eq!(
        DecodeError::PinnedLocal.message(),
        "local reusable workflow reference can't specify `@<ref>`"
    );
    assert_eq!(
        DecodeError::DockerNotReusable.message(),
        "docker action invalid in reusable workflow `uses`"
    );
}

#[test]
fn scalar_becomes_a_list_of_one() {
    assert_eq!(scalar_or_vector::<String>(&yaml("push")), Ok(vec!["push".to_owned()]));
    assert_eq!(scalar_or_vector::<bool>(&yaml("true")), Ok(vec![true]));
    assert_eq!(scalar_or_vector::<u64>(&yaml("7")), Ok(vec![7]));
}

#[test]
fn sequence_keeps_its_order() {
    assert_eq!(
        scalar_or_vector::<String>(&yaml("[c, a, b, a]")),
        Ok(vec!["c".to_owned(), "a".to_owned(), "b".to_owned(), "a".to_owned()])
    );
    assert_eq!(scalar_or_vector::<String>(&yaml("[]")), Ok(vec![]));
    assert_eq!(scalar_or_vector::<u64>(&yaml("[3, 1, 2]")), Ok(vec![3, 1, 2]));
}

#[test]
fn scalar_or_vector_refuses_other_shapes() {
    let neither = Err(DecodeError::ExpectedEither(Shape::Scalar, Shape::Sequence));
    assert_eq!(scalar_or_vector::<String>(&yaml("a: b")), neither);
    assert_eq!(scalar_or_vector::<String>(&yaml("[a, 1]")), neither);
    assert_eq!(scalar_or_vector::<String>(&Value::Null), neither);
}

#[test]
fn sov_tells_one_from_many() {
    assert_eq!(SoV::<String>::decode(&yaml("a")), Ok(SoV::One("a".to_owned())));
    assert_eq!(SoV::<String>::decode(&yaml("[a]")), Ok(SoV::Many(vec!["a".to_owned()])));
    assert_eq!(SoV::One(1u64).into_vec(), vec![1]);
    assert_eq!(SoV::Many(vec![2u64, 1]).into_vec(), vec![2, 1]);
}

#[test]
fn bool_is_read_as_the_string_that_spells_it() {
    assert_eq!(bool_is_string(&yaml("true")), Ok("true".to_owned()));
    assert_eq!(bool_is_string(&yaml("false")), Ok("false".to_owned()));
    assert_eq!(bool_is_string(&yaml("make test")), Ok("make test".to_owned()));
    assert_eq!(bool_is_string(&yaml("'true'")), Ok("true".to_owned()));
    assert_eq!(
        bool_is_string(&yaml("[a]")),
        Err(DecodeError::ExpectedEither(Shape::Bool, Shape::String))
    );
    assert_eq!(BoS::decode(&yaml("true")), Ok(BoS::Bool(true)));
    assert_eq!(BoS::decode(&yaml("yes")), Ok(BoS::String("yes".to_owned())));
    assert_eq!(BoS::Bool(false).into_string(), "false");
}

#[test]
fn null_takes_the_default() {
    assert_eq!(null_to_default::<String>(&Value::Null), Ok(String::new()));
    assert_eq!(null_to_default::<String>(&text("x")), Ok("x".to_owned()));
    assert_eq!(null_to_default::<u64>(&Value::Null), Ok(0));
    assert_eq!(
        null_to_default::<bool>(&Value::Integer(1)),
        Err(DecodeError::Expected(Shape::Bool))
    );
}

#[test]
fn env_value_text() {
    assert_eq!(EnvValue::String("pip".into()).to_text(), "pip");
    assert_eq!(EnvValue::Number("3.8".into()).to_text(), "3.8");
    assert_eq!(EnvValue::Boolean(true).to_text(), "true");
    assert_eq!(EnvValue::Boolean(false).to_text(), "false");
}

#[test]
fn condition_is_a_boolean_or_an_expression() {
    assert_eq!(If::decode(&yaml("true")), Ok(If::Bool(true)));
    assert_eq!(If::decode(&yaml("success()")), Ok(If::Expr("success()".to_owned())));
    assert_eq!(
        If::decode(&yaml("${{ github.ref == 'refs/heads/main' }}")),
        Ok(If::Expr("${{ github.ref == 'refs/heads/main' }}".to_owned()))
    );
    assert_eq!(
        If::decode(&yaml("1")),
        Err(DecodeError::ExpectedEither(Shape::Bool, Shape::String))
    );
}
