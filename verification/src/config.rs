//! Per-environment deployment settings, and the set of environments by name.

use vstd::prelude::*;
use vstd::string::*;
use crate::text::same_text;

verus! {

/// The characters of each string of a list.
pub open spec fn texts(v: Seq<String>) -> Seq<Seq<char>> {
    v.map_values(|s: String| s@)
}

/// A copy of a list of strings.
pub fn clone_strings(v: &Vec<String>) -> (r: Vec<String>)
    ensures
        r@ == v@,
        texts(r@) == texts(v@),
{
    let mut r: Vec<String> = Vec::new();
    let mut i: usize = 0;
    while i < v.len()
        invariant
            i <= v.len(),
            r@ == v@.take(i as int),
        decreases v.len() - i,
    {
        r.push(v[i].clone());
        i += 1;
    }
    r
}

/// What one environment needs for a deployment.
pub struct DeployConfig {
    /// Host and port of the remote shell, as `host:port`.
    pub server: String,
    pub username: String,
    pub password: String,
    /// The Java executable on the remote host.
    pub java_path: String,
    /// The remote directory that receives the artifacts.
    pub remote_base_path: String,
    /// The server archives to deploy, by file name.
    pub jar_files: Vec<String>,
    /// The script that builds the web bundle.
    pub scripts: String,
    /// The directory that the web build writes to.
    pub output_dir: String,
}

/// The settings of one environment, each text by its characters.
pub struct DeployConfigView {
    pub server: Seq<char>,
    pub username: Seq<char>,
    pub password: Seq<char>,
    pub java_path: Seq<char>,
    pub remote_base_path: Seq<char>,
    pub jar_files: Seq<Seq<char>>,
    pub scripts: Seq<char>,
    pub output_dir: Seq<char>,
}

impl View for DeployConfig {
    type V = DeployConfigView;

    open spec fn view(&self) -> DeployConfigView {
        DeployConfigView {
            server: self.server@,
            username: self.username@,
            password: self.password@,
            java_path: self.java_path@,
            remote_base_path: self.remote_base_path@,
            jar_files: texts(self.jar_files@),
            scripts: self.scripts@,
            output_dir: self.output_dir@,
        }
    }
}

impl Clone for DeployConfig {
    fn clone(&self) -> (r: Self)
        ensures
            r@ == self@,
    {
        DeployConfig {
            server: self.server.clone(),
            username: self.username.clone(),
            password: self.password.clone(),
            java_path: self.java_path.clone(),
            remote_base_path: self.remote_base_path.clone(),
            jar_files: clone_strings(&self.jar_files),
            scripts: self.scripts.clone(),
            output_dir: self.output_dir.clone(),
        }
    }
}

/// The environments of a configuration, each under its name. Looking a name
/// up finds its first entry; `insert` keeps every name to one entry.
pub struct Environments {
    pub environments: Vec<(String, DeployConfig)>,
}

impl View for Environments {
    type V = Seq<(Seq<char>, DeployConfigView)>;

    open spec fn view(&self) -> Seq<(Seq<char>, DeployConfigView)> {
        self.environments@.map_values(|e: (String, DeployConfig)| (e.0@, e.1@))
    }
}

/// The position of the first entry named `name`, or the number of entries if
/// there is none.
pub open spec fn position_of(entries: Seq<(Seq<char>, DeployConfigView)>, name: Seq<char>) -> int
    decreases entries.len(),
{
    if entries.len() == 0 || entries[0].0 == name {
        0
    } else {
        1 + position_of(entries.drop_first(), name)
    }
}

/// The settings of the first entry named `name`.
pub open spec fn lookup(entries: Seq<(Seq<char>, DeployConfigView)>, name: Seq<char>) -> Option<
    DeployConfigView,
> {
    let i = position_of(entries, name);
    if i < entries.len() {
        Some(entries[i].1)
    } else {
        None
    }
}

/// No name has two entries.
pub open spec fn names_distinct(entries: Seq<(Seq<char>, DeployConfigView)>) -> bool {
    forall|i: int, j: int|
        0 <= i < j < entries.len() ==> (#[trigger] entries[i]).0 != (#[trigger] entries[j]).0
}

/// `position_of` is where the name stands first: the entry there has the
/// name, and no entry before it has.
pub proof fn lemma_position_of(entries: Seq<(Seq<char>, DeployConfigView)>, name: Seq<char>)
    ensures
        0 <= position_of(entries, name) <= entries.len(),
        position_of(entries, name) < entries.len() ==> entries[position_of(entries, name)].0
            == name,
        forall|i: int| 0 <= i < position_of(entries, name) ==> (#[trigger] entries[i]).0 != name,
    decreases entries.len(),
{
    if entries.len() > 0 && entries[0].0 != name {
        let rest = entries.drop_first();
        lemma_position_of(rest, name);
        assert forall|i: int| 0 <= i < position_of(entries, name) implies (
        #[trigger] entries[i]).0 != name by {
            if i > 0 {
                assert(entries[i] == rest[i - 1]);
            }
        }
    }
}

/// Whatever comes first at or after `from` decides `position_of` once no
/// entry before `from` has the name.
proof fn lemma_position_of_skip(
    entries: Seq<(Seq<char>, DeployConfigView)>,
    name: Seq<char>,
    from: int,
)
    requires
        0 <= from <= entries.len(),
        forall|i: int| 0 <= i < from ==> (#[trigger] entries[i]).0 != name,
    ensures
        position_of(entries, name) == from + position_of(entries.skip(from), name),
    decreases from,
{
    if from == 0 {
        assert(entries.skip(0) =~= entries);
    } else {
        let rest = entries.drop_first();
        assert forall|i: int| 0 <= i < from - 1 implies (#[trigger] rest[i]).0 != name by {
            assert(rest[i] == entries[i + 1]);
        }
        lemma_position_of_skip(rest, name, from - 1);
        assert(rest.skip(from - 1) =~= entries.skip(from));
    }
}

/// The entries of the example configuration: `dev`, `test` and `prod`.
pub open spec fn example_environments() -> Seq<(Seq<char>, DeployConfigView)> {
    seq![
        (
            "dev"@,
            DeployConfigView {
                server: "192.168.31.60:22"@,
                username: "root"@,
                password: "lykj"@,
                java_path: "/opt/soft/zulu11/bin/java"@,
                remote_base_path: "/opt/xinxuan1v1"@,
                jar_files: seq!["admin.jar"@, "client.jar"@, "websocket.jar"@],
                scripts: "prod:test"@,
                output_dir: "dist-test"@,
            },
        ),
        (
            "test"@,
            DeployConfigView {
                server: "test-server:22"@,
                username: "test-user"@,
                password: "test-password"@,
                java_path: "/usr/bin/java"@,
                remote_base_path: "/opt/test/apps"@,
                jar_files: seq!["admin.jar"@, "client.jar"@, "websocket.jar"@],
                scripts: "prod:test"@,
                output_dir: "dist-test"@,
            },
        ),
        (
            "prod"@,
            DeployConfigView {
                server: "prod-server:22"@,
                username: "prod-user"@,
                password: "prod-password"@,
                java_path: "/usr/java/latest/bin/java"@,
                remote_base_path: "/opt/prod/apps"@,
                jar_files: seq!["admin.jar"@, "client.jar"@, "websocket.jar"@],
                scripts: "prod"@,
                output_dir: "dist"@,
            },
        ),
    ]
}

/// What a lookup says of a name that has no entry.
pub open spec fn unknown_environment_text(name: Seq<char>) -> Seq<char> {
    "环境 '"@ + name + "' 未在配置文件中找到"@
}

fn example_jar_files() -> (r: Vec<String>)
    ensures
        texts(r@) == seq!["admin.jar"@, "client.jar"@, "websocket.jar"@],
{
    let mut r: Vec<String> = Vec::new();
    r.push(String::from_str("admin.jar"));
    r.push(String::from_str("client.jar"));
    r.push(String::from_str("websocket.jar"));
    r
}

impl Environments {
    /// No environments.
    pub fn new() -> (r: Environments)
        ensures
            r@ == Seq::<(Seq<char>, DeployConfigView)>::empty(),
    {
        let r = Environments { environments: Vec::new() };
        r
    }

    /// Where the first entry named `name` stands, if there is one.
    pub fn position(&self, name: &str) -> (r: usize)
        ensures
            r == position_of(self@, name@),
            r <= self.environments@.len(),
    {
        let mut i: usize = 0;
        while i < self.environments.len() && !same_text(self.environments[i].0.as_str(), name)
            invariant
                i <= self.environments@.len(),
                forall|k: int| 0 <= k < i ==> (#[trigger] self@[k]).0 != name@,
            decreases self.environments@.len() - i,
        {
            i += 1;
        }
        proof {
            lemma_position_of_skip(self@, name@, i as int);
        }
        i
    }

    /// The settings of the environment `name`.
    pub fn get(&self, name: &str) -> (r: Option<&DeployConfig>)
        ensures
            match r {
                Some(config) => lookup(self@, name@) == Some(config@),
                None => lookup(self@, name@).is_none(),
            },
    {
        let i = self.position(name);
        if i < self.environments.len() {
            Some(&self.environments[i].1)
        } else {
            None
        }
    }

    /// Puts `config` under `name`, in place of the settings that the name had
    /// or, for a new name, behind the other entries.
    pub fn insert(&mut self, name: String, config: DeployConfig)
        ensures
            final(self)@ == if position_of(old(self)@, name@) < old(self)@.len() {
                old(self)@.update(position_of(old(self)@, name@), (name@, config@))
            } else {
                old(self)@.push((name@, config@))
            },
            lookup(final(self)@, name@) == Some(config@),
            names_distinct(old(self)@) ==> names_distinct(final(self)@),
    {
        let i = self.position(name.as_str());
        let ghost before = self@;
        proof {
            lemma_position_of(before, name@);
        }
        if i < self.environments.len() {
            self.environments[i] = (name, config);
        } else {
            self.environments.push((name, config));
        }
        proof {
            assert forall|k: int| 0 <= k < i implies (#[trigger] self@[k]).0 != name@ by {
                assert(self@[k] == before[k]);
            }
            lemma_position_of_skip(self@, name@, i as int);
            if names_distinct(before) {
                assert forall|a: int, b: int| 0 <= a < b < self@.len() implies (
                #[trigger] self@[a]).0 != (#[trigger] self@[b]).0 by {
                    if a != i {
                        assert(self@[a] == before[a]);
                    }
                    if b != i {
                        assert(self@[b] == before[b]);
                    }
                }
            }
        }
    }
}

impl DeployConfig {
    /// The example configuration that a new project starts from: the
    /// environments `dev`, `test` and `prod`, in this order.
    pub fn create_springboot_config() -> (r: Environments)
        ensures
            r@ == example_environments(),
            names_distinct(r@),
    {
        let mut environments: Vec<(String, DeployConfig)> = Vec::new();
        environments.push(
            (
                String::from_str("dev"),
                DeployConfig {
                    server: String::from_str("192.168.31.60:22"),
                    username: String::from_str("root"),
                    password: String::from_str("lykj"),
                    java_path: String::from_str("/opt/soft/zulu11/bin/java"),
                    remote_base_path: String::from_str("/opt/xinxuan1v1"),
                    jar_files: example_jar_files(),
                    scripts: String::from_str("prod:test"),
                    output_dir: String::from_str("dist-test"),
                },
            ),
        );
        environments.push(
            (
                String::from_str("test"),
                DeployConfig {
                    server: String::from_str("test-server:22"),
                    username: String::from_str("test-user"),
                    password: String::from_str("test-password"),
                    java_path: String::from_str("/usr/bin/java"),
                    remote_base_path: String::from_str("/opt/test/apps"),
                    jar_files: example_jar_files(),
                    scripts: String::from_str("prod:test"),
                    output_dir: String::from_str("dist-test"),
                },
            ),
        );
        environments.push(
            (
                String::from_str("prod"),
                DeployConfig {
                    server: String::from_str("prod-server:22"),
                    username: String::from_str("prod-user"),
                    password: String::from_str("prod-password"),
                    java_path: String::from_str("/usr/java/latest/bin/java"),
                    remote_base_path: String::from_str("/opt/prod/apps"),
                    jar_files: example_jar_files(),
                    scripts: String::from_str("prod"),
                    output_dir: String::from_str("dist"),
                },
            ),
        );
        let r = Environments { environments };
        proof {
            reveal_strlit("dev");
            reveal_strlit("test");
            reveal_strlit("prod");
            assert("dev"@[0] != "test"@[0]);
            assert("dev"@[0] != "prod"@[0]);
            assert("test"@[0] != "prod"@[0]);
        }
        r
    }

    /// The settings of `environment` among `environments`; for a name that
    /// has no entry, a message that names it.
    pub fn from_file(environments: &Environments, environment: &str) -> (r: Result<
        DeployConfig,
        String,
    >)
        ensures
            match r {
                Ok(config) => lookup(environments@, environment@) == Some(config@),
                Err(message) => lookup(environments@, environment@).is_none() && message@
                    == unknown_environment_text(environment@),
            },
    {
        match environments.get(environment) {
            Some(config) => Ok(config.clone()),
            None => {
                let mut message = String::from_str("环境 '");
                message.append(environment);
                message.append("' 未在配置文件中找到");
                Err(message)
            },
        }
    }
}

} // verus!
