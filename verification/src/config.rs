//! The configuration of one run.

use vstd::prelude::*;

verus! {

/// What a run is told before it starts. Nothing in a run changes it.
#[derive(Clone, Debug, PartialEq, Eq)]
pub struct ConfigFile {
    /// The cluster context that every command and request is addressed to.
    pub context_name: String,
    /// The namespaces to collect from, in the order they are visited.
    pub context_namespace: Vec<String>,
    /// Where the bundle is written; empty for the current directory.
    pub output_directory_path: String,
    /// Whether the logs of the last terminated incarnation are fetched.
    pub previous_logs: bool,
    /// Whether the logs of the running incarnation are fetched.
    pub current_logs: bool,
    /// A label by which a message-bus product of another vendor is found.
    /// It is carried along; no decision of a run depends on it.
    pub non_exfo_kafka_product_kubernetes_label: String,
}

/// A configuration as plain mathematical values.
pub struct ConfigView {
    pub context_name: Seq<char>,
    pub context_namespace: Seq<Seq<char>>,
    pub output_directory_path: Seq<char>,
    pub previous_logs: bool,
    pub current_logs: bool,
    pub non_exfo_kafka_product_kubernetes_label: Seq<char>,
}

impl View for ConfigFile {
    type V = ConfigView;

    open spec fn view(&self) -> ConfigView {
        ConfigView {
            context_name: self.context_name@,
            context_namespace: self.context_namespace.deep_view(),
            output_directory_path: self.output_directory_path@,
            previous_logs: self.previous_logs,
            current_logs: self.current_logs,
            non_exfo_kafka_product_kubernetes_label: self.non_exfo_kafka_product_kubernetes_label@,
        }
    }
}

impl DeepView for ConfigFile {
    type V = ConfigView;

    open spec fn deep_view(&self) -> ConfigView {
        self@
    }
}

impl ConfigView {
    /// No namespace is named twice.
    pub open spec fn namespaces_unique(self) -> bool {
        self.context_namespace.no_duplicates()
    }
}

impl Default for ConfigFile {
    fn default() -> (r: ConfigFile)
        ensures
            r@.context_name.len() == 0,
            r@.context_namespace.len() == 0,
            r@.output_directory_path.len() == 0,
            !r@.previous_logs,
            !r@.current_logs,
            r@.non_exfo_kafka_product_kubernetes_label.len() == 0,
    {
        ConfigFile {
            context_name: String::new(),
            context_namespace: Vec::new(),
            output_directory_path: String::new(),
            previous_logs: false,
            current_logs: false,
            non_exfo_kafka_product_kubernetes_label: String::new(),
        }
    }
}

impl ConfigFile {
    /// Whether no namespace is named twice.
    pub fn has_unique_namespaces(&self) -> (r: bool)
        ensures
            r == self@.namespaces_unique(),
    {
        let names = &self.context_namespace;
        let mut i: usize = 0;
        while i < names.len()
            invariant
                i <= names.len(),
                names == &self.context_namespace,
                forall|a: int, b: int|
                    0 <= a < i && 0 <= b < names.len() && a != b ==> names.deep_view()[a]
                        != names.deep_view()[b],
            decreases names.len() - i,
        {
            let mut j: usize = 0;
            while j < names.len()
                invariant
                    i < names.len(),
                    j <= names.len(),
                    names == &self.context_namespace,
                    forall|b: int|
                        0 <= b < j && b != i ==> names.deep_view()[i as int]
                            != names.deep_view()[b],
                decreases names.len() - j,
            {
                if j != i && names[i] == names[j] {
                    assert(names.deep_view()[i as int] == names.deep_view()[j as int]);
                    return false;
                }
                j += 1;
            }
            i += 1;
        }
        true
    }
}

} // verus!
