//! The configuration that an actor is built with and never changes.
use vstd::prelude::*;

verus! {

/// Top level configuration.
#[derive(Debug)]
pub struct Config {
    pub container: Container,
    pub logging: Logging,
    pub component: Component,
}

/// Container configuration: who the container is.
#[derive(Debug)]
pub struct Container {
    pub name: String,
    pub version: String,
    pub version_title: String,
    pub software_collection: String,
}

/// Logging configuration.
#[derive(Debug)]
pub struct Logging {
    pub level: String,
}

/// Component configuration: the amount by which the handler raises a value.
#[derive(Debug)]
pub struct Component {
    pub increment: u8,
}

impl Config {
    /// The identity of the container as four pairs of a key and its value, in
    /// the order name, version, version title, software collection.
    pub open spec fn spec_container_identity(&self) -> Seq<(Seq<char>, Seq<char>)> {
        seq![
            ("name"@, self.container.name@),
            ("version"@, self.container.version@),
            ("version_title"@, self.container.version_title@),
            ("software_collection"@, self.container.software_collection@),
        ]
    }

    /// The identity of the container, as pairs of a key and its value.
    pub fn container_identity(&self) -> (r: Vec<(String, String)>)
        ensures
            r@.len() == 4,
            forall|i: int|
                0 <= i < 4 ==> (#[trigger] r@[i]).0@ == self.spec_container_identity()[i].0
                    && r@[i].1@ == self.spec_container_identity()[i].1,
    {
        let mut identity: Vec<(String, String)> = Vec::new();
        identity.push(("name".to_owned(), self.container.name.clone()));
        identity.push(("version".to_owned(), self.container.version.clone()));
        identity.push(("version_title".to_owned(), self.container.version_title.clone()));
        identity.push(
            ("software_collection".to_owned(), self.container.software_collection.clone()),
        );
        identity
    }

    /// The configured logging level.
    pub fn log_level(&self) -> (r: &str)
        ensures
            r@ == self.logging.level@,
    {
        self.logging.level.as_str()
    }
}

} // verus!
