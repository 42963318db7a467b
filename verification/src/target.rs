//! Build targets: the library, binaries, tests, benchmarks and examples.

use vstd::prelude::*;
use crate::decode::{Decode, field, mismatch, optional_field, table_of};
use crate::error::{DecodeError, Fault};
use crate::package::Edition;
use crate::value::{Kind, Node, ValueNode};

verus! {

/// Library target configuration from `[lib]`.
#[derive(Clone, Debug)]
pub struct LibTarget {
    /// The name of the library (defaults to package name with hyphens replaced by underscores).
    pub name: Option<String>,
    /// The source file of the target, relative to Cargo.toml.
    pub path: Option<String>,
    /// Whether the target is tested by default by `cargo test`.
    pub test: Option<bool>,
    /// Whether documentation examples are tested by `cargo test`.
    pub doctest: Option<bool>,
    /// Whether the target is benchmarked by default by `cargo bench`.
    pub bench: Option<bool>,
    /// Whether the target is included in `cargo doc` output.
    pub doc: Option<bool>,
    /// Deprecated and unused.
    pub plugin: Option<bool>,
    /// Whether the library is a procedural macro.
    pub proc_macro: Option<bool>,
    /// Whether to use the libtest harness for `#[test]` functions.
    pub harness: Option<bool>,
    /// The Rust edition the target will use.
    pub edition: Option<Edition>,
    /// The crate types to generate (e.g., `lib`, `rlib`, `dylib`, `cdylib`, `staticlib`).
    pub crate_type: Option<Vec<String>>,
    /// Features required for the target to be built.
    pub required_features: Option<Vec<String>>,
    /// Whether Rustdoc should scrape examples from this target.
    pub doc_scrape_examples: Option<bool>,
}

/// The mathematical model of a [`LibTarget`].
pub struct LibTargetModel {
    pub name: Option<Seq<char>>,
    pub path: Option<Seq<char>>,
    pub test: Option<bool>,
    pub doctest: Option<bool>,
    pub bench: Option<bool>,
    pub doc: Option<bool>,
    pub plugin: Option<bool>,
    pub proc_macro: Option<bool>,
    pub harness: Option<bool>,
    pub edition: Option<Edition>,
    pub crate_type: Option<Seq<Seq<char>>>,
    pub required_features: Option<Seq<Seq<char>>>,
    pub doc_scrape_examples: Option<bool>,
}

impl DeepView for LibTarget {
    type V = LibTargetModel;

    open spec fn deep_view(&self) -> LibTargetModel {
        LibTargetModel {
            name: self.name.deep_view(),
            path: self.path.deep_view(),
            test: self.test.deep_view(),
            doctest: self.doctest.deep_view(),
            bench: self.bench.deep_view(),
            doc: self.doc.deep_view(),
            plugin: self.plugin.deep_view(),
            proc_macro: self.proc_macro.deep_view(),
            harness: self.harness.deep_view(),
            edition: self.edition.deep_view(),
            crate_type: self.crate_type.deep_view(),
            required_features: self.required_features.deep_view(),
            doc_scrape_examples: self.doc_scrape_examples.deep_view(),
        }
    }
}

impl Decode for LibTarget {
    /// A table decodes field by field, in the order of declaration; the first
    /// field that fails gives the failure. Keys that no field names are ignored.
    open spec fn decoded(node: Node) -> Result<LibTargetModel, Fault> {
        match node {
            Node::Table(t) => {
                let name = optional_field::<String>(t, "name"@);
                let path = optional_field::<String>(t, "path"@);
                let test = optional_field::<bool>(t, "test"@);
                let doctest = optional_field::<bool>(t, "doctest"@);
                let bench = optional_field::<bool>(t, "bench"@);
                let doc = optional_field::<bool>(t, "doc"@);
                let plugin = optional_field::<bool>(t, "plugin"@);
                let proc_macro = optional_field::<bool>(t, "proc-macro"@);
                let harness = optional_field::<bool>(t, "harness"@);
                let edition = optional_field::<Edition>(t, "edition"@);
                let crate_type = optional_field::<Vec<String>>(t, "crate-type"@);
                let required_features = optional_field::<Vec<String>>(t, "required-features"@);
                let doc_scrape_examples = optional_field::<bool>(t, "doc-scrape-examples"@);
                if name is Err {
                    Err(name->Err_0)
                } else if path is Err {
                    Err(path->Err_0)
                } else if test is Err {
                    Err(test->Err_0)
                } else if doctest is Err {
                    Err(doctest->Err_0)
                } else if bench is Err {
                    Err(bench->Err_0)
                } else if doc is Err {
                    Err(doc->Err_0)
                } else if plugin is Err {
                    Err(plugin->Err_0)
                } else if proc_macro is Err {
                    Err(proc_macro->Err_0)
                } else if harness is Err {
                    Err(harness->Err_0)
                } else if edition is Err {
                    Err(edition->Err_0)
                } else if crate_type is Err {
                    Err(crate_type->Err_0)
                } else if required_features is Err {
                    Err(required_features->Err_0)
                } else if doc_scrape_examples is Err {
                    Err(doc_scrape_examples->Err_0)
                } else {
                    Ok(LibTargetModel {
                        name: name->Ok_0,
                        path: path->Ok_0,
                        test: test->Ok_0,
                        doctest: doctest->Ok_0,
                        bench: bench->Ok_0,
                        doc: doc->Ok_0,
                        plugin: plugin->Ok_0,
                        proc_macro: proc_macro->Ok_0,
                        harness: harness->Ok_0,
                        edition: edition->Ok_0,
                        crate_type: crate_type->Ok_0,
                        required_features: required_features->Ok_0,
                        doc_scrape_examples: doc_scrape_examples->Ok_0,
                    })
                }
            },
            _ => Err(mismatch(Kind::Table, node)),
        }
    }

    fn decode(value: &ValueNode) -> (r: Result<Self, DecodeError>) {
        let t = table_of(value)?;
        let name = field::<String>(t, "name")?;
        let path = field::<String>(t, "path")?;
        let test = field::<bool>(t, "test")?;
        let doctest = field::<bool>(t, "doctest")?;
        let bench = field::<bool>(t, "bench")?;
        let doc = field::<bool>(t, "doc")?;
        let plugin = field::<bool>(t, "plugin")?;
        let proc_macro = field::<bool>(t, "proc-macro")?;
        let harness = field::<bool>(t, "harness")?;
        let edition = field::<Edition>(t, "edition")?;
        let crate_type = field::<Vec<String>>(t, "crate-type")?;
        let required_features = field::<Vec<String>>(t, "required-features")?;
        let doc_scrape_examples = field::<bool>(t, "doc-scrape-examples")?;
        Ok(
            LibTarget {
                name,
                path,
                test,
                doctest,
                bench,
                doc,
                plugin,
                proc_macro,
                harness,
                edition,
                crate_type,
                required_features,
                doc_scrape_examples,
            },
        )
    }
}

/// Binary target configuration from `[[bin]]`.
#[derive(Clone, Debug)]
pub struct BinTarget {
    /// The name of the binary (used as the executable filename).
    pub name: Option<String>,
    /// The source file of the target, relative to Cargo.toml.
    pub path: Option<String>,
    /// Whether the target is tested by default by `cargo test`.
    pub test: Option<bool>,
    /// Whether documentation examples are tested by `cargo test`.
    pub doctest: Option<bool>,
    /// Whether the target is benchmarked by default by `cargo bench`.
    pub bench: Option<bool>,
    /// Whether the target is included in `cargo doc` output.
    pub doc: Option<bool>,
    /// Deprecated and unused.
    pub plugin: Option<bool>,
    /// Whether to use the libtest harness for `#[test]` functions.
    pub harness: Option<bool>,
    /// The Rust edition the target will use.
    pub edition: Option<Edition>,
    /// Features required for the target to be built.
    pub required_features: Option<Vec<String>>,
}

/// The mathematical model of a [`BinTarget`].
pub struct BinTargetModel {
    pub name: Option<Seq<char>>,
    pub path: Option<Seq<char>>,
    pub test: Option<bool>,
    pub doctest: Option<bool>,
    pub bench: Option<bool>,
    pub doc: Option<bool>,
    pub plugin: Option<bool>,
    pub harness: Option<bool>,
    pub edition: Option<Edition>,
    pub required_features: Option<Seq<Seq<char>>>,
}

impl DeepView for BinTarget {
    type V = BinTargetModel;

    open spec fn deep_view(&self) -> BinTargetModel {
        BinTargetModel {
            name: self.name.deep_view(),
            path: self.path.deep_view(),
            test: self.test.deep_view(),
            doctest: self.doctest.deep_view(),
            bench: self.bench.deep_view(),
            doc: self.doc.deep_view(),
            plugin: self.plugin.deep_view(),
            harness: self.harness.deep_view(),
            edition: self.edition.deep_view(),
            required_features: self.required_features.deep_view(),
        }
    }
}

impl Decode for BinTarget {
    /// A table decodes field by field, in the order of declaration; the first
    /// field that fails gives the failure. Keys that no field names are ignored.
    open spec fn decoded(node: Node) -> Result<BinTargetModel, Fault> {
        match node {
            Node::Table(t) => {
                let name = optional_field::<String>(t, "name"@);
                let path = optional_field::<String>(t, "path"@);
                let test = optional_field::<bool>(t, "test"@);
                let doctest = optional_field::<bool>(t, "doctest"@);
                let bench = optional_field::<bool>(t, "bench"@);
                let doc = optional_field::<bool>(t, "doc"@);
                let plugin = optional_field::<bool>(t, "plugin"@);
                let harness = optional_field::<bool>(t, "harness"@);
                let edition = optional_field::<Edition>(t, "edition"@);
                let required_features = optional_field::<Vec<String>>(t, "required-features"@);
                if name is Err {
                    Err(name->Err_0)
                } else if path is Err {
                    Err(path->Err_0)
                } else if test is Err {
                    Err(test->Err_0)
                } else if doctest is Err {
                    Err(doctest->Err_0)
                } else if bench is Err {
                    Err(bench->Err_0)
                } else if doc is Err {
                    Err(doc->Err_0)
                } else if plugin is Err {
                    Err(plugin->Err_0)
                } else if harness is Err {
                    Err(harness->Err_0)
                } else if edition is Err {
                    Err(edition->Err_0)
                } else if required_features is Err {
                    Err(required_features->Err_0)
                } else {
                    Ok(BinTargetModel {
                        name: name->Ok_0,
                        path: path->Ok_0,
                        test: test->Ok_0,
                        doctest: doctest->Ok_0,
                        bench: bench->Ok_0,
                        doc: doc->Ok_0,
                        plugin: plugin->Ok_0,
                        harness: harness->Ok_0,
                        edition: edition->Ok_0,
                        required_features: required_features->Ok_0,
                    })
                }
            },
            _ => Err(mismatch(Kind::Table, node)),
        }
    }

    fn decode(value: &ValueNode) -> (r: Result<Self, DecodeError>) {
        let t = table_of(value)?;
        let name = field::<String>(t, "name")?;
        let path = field::<String>(t, "path")?;
        let test = field::<bool>(t, "test")?;
        let doctest = field::<bool>(t, "doctest")?;
        let bench = field::<bool>(t, "bench")?;
        let doc = field::<bool>(t, "doc")?;
        let plugin = field::<bool>(t, "plugin")?;
        let harness = field::<bool>(t, "harness")?;
        let edition = field::<Edition>(t, "edition")?;
        let required_features = field::<Vec<String>>(t, "required-features")?;
        Ok(
            BinTarget {
                name,
                path,
                test,
                doctest,
                bench,
                doc,
                plugin,
                harness,
                edition,
                required_features,
            },
        )
    }
}

/// Test target configuration from `[[test]]`.
#[derive(Clone, Debug)]
pub struct TestTarget {
    /// The name of the test target.
    pub name: Option<String>,
    /// The source file of the target, relative to Cargo.toml.
    pub path: Option<String>,
    /// Whether the target is tested by default by `cargo test`.
    pub test: Option<bool>,
    /// Whether documentation examples are tested by `cargo test`.
    pub doctest: Option<bool>,
    /// Whether the target is benchmarked by default by `cargo bench`.
    pub bench: Option<bool>,
    /// Whether the target is included in `cargo doc` output.
    pub doc: Option<bool>,
    /// Deprecated and unused.
    pub plugin: Option<bool>,
    /// Whether to use the libtest harness for `#[test]` functions.
    pub harness: Option<bool>,
    /// The Rust edition the target will use.
    pub edition: Option<Edition>,
    /// Features required for the target to be built.
    pub required_features: Option<Vec<String>>,
}

/// The mathematical model of a [`TestTarget`].
pub struct TestTargetModel {
    pub name: Option<Seq<char>>,
    pub path: Option<Seq<char>>,
    pub test: Option<bool>,
    pub doctest: Option<bool>,
    pub bench: Option<bool>,
    pub doc: Option<bool>,
    pub plugin: Option<bool>,
    pub harness: Option<bool>,
    pub edition: Option<Edition>,
    pub required_features: Option<Seq<Seq<char>>>,
}

impl DeepView for TestTarget {
    type V = TestTargetModel;

    open spec fn deep_view(&self) -> TestTargetModel {
        TestTargetModel {
            name: self.name.deep_view(),
            path: self.path.deep_view(),
            test: self.test.deep_view(),
            doctest: self.doctest.deep_view(),
            bench: self.bench.deep_view(),
            doc: self.doc.deep_view(),
            plugin: self.plugin.deep_view(),
            harness: self.harness.deep_view(),
            edition: self.edition.deep_view(),
            required_features: self.required_features.deep_view(),
        }
    }
}

impl Decode for TestTarget {
    /// A table decodes field by field, in the order of declaration; the first
    /// field that fails gives the failure. Keys that no field names are ignored.
    open spec fn decoded(node: Node) -> Result<TestTargetModel, Fault> {
        match node {
            Node::Table(t) => {
                let name = optional_field::<String>(t, "name"@);
                let path = optional_field::<String>(t, "path"@);
                let test = optional_field::<bool>(t, "test"@);
                let doctest = optional_field::<bool>(t, "doctest"@);
                let bench = optional_field::<bool>(t, "bench"@);
                let doc = optional_field::<bool>(t, "doc"@);
                let plugin = optional_field::<bool>(t, "plugin"@);
                let harness = optional_field::<bool>(t, "harness"@);
                let edition = optional_field::<Edition>(t, "edition"@);
                let required_features = optional_field::<Vec<String>>(t, "required-features"@);
                if name is Err {
                    Err(name->Err_0)
                } else if path is Err {
                    Err(path->Err_0)
                } else if test is Err {
                    Err(test->Err_0)
                } else if doctest is Err {
                    Err(doctest->Err_0)
                } else if bench is Err {
                    Err(bench->Err_0)
                } else if doc is Err {
                    Err(doc->Err_0)
                } else if plugin is Err {
                    Err(plugin->Err_0)
                } else if harness is Err {
                    Err(harness->Err_0)
                } else if edition is Err {
                    Err(edition->Err_0)
                } else if required_features is Err {
                    Err(required_features->Err_0)
                } else {
                    Ok(TestTargetModel {
                        name: name->Ok_0,
                        path: path->Ok_0,
                        test: test->Ok_0,
                        doctest: doctest->Ok_0,
                        bench: bench->Ok_0,
                        doc: doc->Ok_0,
                        plugin: plugin->Ok_0,
                        harness: harness->Ok_0,
                        edition: edition->Ok_0,
                        required_features: required_features->Ok_0,
                    })
                }
            },
            _ => Err(mismatch(Kind::Table, node)),
        }
    }

    fn decode(value: &ValueNode) -> (r: Result<Self, DecodeError>) {
        let t = table_of(value)?;
        let name = field::<String>(t, "name")?;
        let path = field::<String>(t, "path")?;
        let test = field::<bool>(t, "test")?;
        let doctest = field::<bool>(t, "doctest")?;
        let bench = field::<bool>(t, "bench")?;
        let doc = field::<bool>(t, "doc")?;
        let plugin = field::<bool>(t, "plugin")?;
        let harness = field::<bool>(t, "harness")?;
        let edition = field::<Edition>(t, "edition")?;
        let required_features = field::<Vec<String>>(t, "required-features")?;
        Ok(
            TestTarget {
                name,
                path,
                test,
                doctest,
                bench,
                doc,
                plugin,
                harness,
                edition,
                required_features,
            },
        )
    }
}

/// Benchmark target configuration from `[[bench]]`.
#[derive(Clone, Debug)]
pub struct BenchTarget {
    /// The name of the benchmark target.
    pub name: Option<String>,
    /// The source file of the target, relative to Cargo.toml.
    pub path: Option<String>,
    /// Whether the target is tested by default by `cargo test`.
    pub test: Option<bool>,
    /// Whether documentation examples are tested by `cargo test`.
    pub doctest: Option<bool>,
    /// Whether the target is benchmarked by default by `cargo bench`.
    pub bench: Option<bool>,
    /// Whether the target is included in `cargo doc` output.
    pub doc: Option<bool>,
    /// Deprecated and unused.
    pub plugin: Option<bool>,
    /// Whether to use the libtest harness for `#[test]` functions.
    pub harness: Option<bool>,
    /// The Rust edition the target will use.
    pub edition: Option<Edition>,
    /// Features required for the target to be built.
    pub required_features: Option<Vec<String>>,
}

/// The mathematical model of a [`BenchTarget`].
pub struct BenchTargetModel {
    pub name: Option<Seq<char>>,
    pub path: Option<Seq<char>>,
    pub test: Option<bool>,
    pub doctest: Option<bool>,
    pub bench: Option<bool>,
    pub doc: Option<bool>,
    pub plugin: Option<bool>,
    pub harness: Option<bool>,
    pub edition: Option<Edition>,
    pub required_features: Option<Seq<Seq<char>>>,
}

impl DeepView for BenchTarget {
    type V = BenchTargetModel;

    open spec fn deep_view(&self) -> BenchTargetModel {
        BenchTargetModel {
            name: self.name.deep_view(),
            path: self.path.deep_view(),
            test: self.test.deep_view(),
            doctest: self.doctest.deep_view(),
            bench: self.bench.deep_view(),
            doc: self.doc.deep_view(),
            plugin: self.plugin.deep_view(),
            harness: self.harness.deep_view(),
            edition: self.edition.deep_view(),
            required_features: self.required_features.deep_view(),
        }
    }
}

impl Decode for BenchTarget {
    /// A table decodes field by field, in the order of declaration; the first
    /// field that fails gives the failure. Keys that no field names are ignored.
    open spec fn decoded(node: Node) -> Result<BenchTargetModel, Fault> {
        match node {
            Node::Table(t) => {
                let name = optional_field::<String>(t, "name"@);
                let path = optional_field::<String>(t, "path"@);
                let test = optional_field::<bool>(t, "test"@);
                let doctest = optional_field::<bool>(t, "doctest"@);
                let bench = optional_field::<bool>(t, "bench"@);
                let doc = optional_field::<bool>(t, "doc"@);
                let plugin = optional_field::<bool>(t, "plugin"@);
                let harness = optional_field::<bool>(t, "harness"@);
                let edition = optional_field::<Edition>(t, "edition"@);
                let required_features = optional_field::<Vec<String>>(t, "required-features"@);
                if name is Err {
                    Err(name->Err_0)
                } else if path is Err {
                    Err(path->Err_0)
                } else if test is Err {
                    Err(test->Err_0)
                } else if doctest is Err {
                    Err(doctest->Err_0)
                } else if bench is Err {
                    Err(bench->Err_0)
                } else if doc is Err {
                    Err(doc->Err_0)
                } else if plugin is Err {
                    Err(plugin->Err_0)
                } else if harness is Err {
                    Err(harness->Err_0)
                } else if edition is Err {
                    Err(edition->Err_0)
                } else if required_features is Err {
                    Err(required_features->Err_0)
                } else {
                    Ok(BenchTargetModel {
                        name: name->Ok_0,
                        path: path->Ok_0,
                        test: test->Ok_0,
                        doctest: doctest->Ok_0,
                        bench: bench->Ok_0,
                        doc: doc->Ok_0,
                        plugin: plugin->Ok_0,
                        harness: harness->Ok_0,
                        edition: edition->Ok_0,
                        required_features: required_features->Ok_0,
                    })
                }
            },
            _ => Err(mismatch(Kind::Table, node)),
        }
    }

    fn decode(value: &ValueNode) -> (r: Result<Self, DecodeError>) {
        let t = table_of(value)?;
        let name = field::<String>(t, "name")?;
        let path = field::<String>(t, "path")?;
        let test = field::<bool>(t, "test")?;
        let doctest = field::<bool>(t, "doctest")?;
        let bench = field::<bool>(t, "bench")?;
        let doc = field::<bool>(t, "doc")?;
        let plugin = field::<bool>(t, "plugin")?;
        let harness = field::<bool>(t, "harness")?;
        let edition = field::<Edition>(t, "edition")?;
        let required_features = field::<Vec<String>>(t, "required-features")?;
        Ok(
            BenchTarget {
                name,
                path,
                test,
                doctest,
                bench,
                doc,
                plugin,
                harness,
                edition,
                required_features,
            },
        )
    }
}

/// Example target configuration from `[[example]]`.
#[derive(Clone, Debug)]
pub struct ExampleTarget {
    /// The name of the example target.
    pub name: Option<String>,
    /// The source file of the target, relative to Cargo.toml.
    pub path: Option<String>,
    /// Whether the target is tested by default by `cargo test`.
    pub test: Option<bool>,
    /// Whether documentation examples are tested by `cargo test`.
    pub doctest: Option<bool>,
    /// Whether the target is benchmarked by default by `cargo bench`.
    pub bench: Option<bool>,
    /// Whether the target is included in `cargo doc` output.
    pub doc: Option<bool>,
    /// Deprecated and unused.
    pub plugin: Option<bool>,
    /// Whether to use the libtest harness for `#[test]` functions.
    pub harness: Option<bool>,
    /// The Rust edition the target will use.
    pub edition: Option<Edition>,
    /// Features required for the target to be built.
    pub required_features: Option<Vec<String>>,
    /// The crate types to generate for this example.
    pub crate_type: Option<Vec<String>>,
}

/// The mathematical model of a [`ExampleTarget`].
pub struct ExampleTargetModel {
    pub name: Option<Seq<char>>,
    pub path: Option<Seq<char>>,
    pub test: Option<bool>,
    pub doctest: Option<bool>,
    pub bench: Option<bool>,
    pub doc: Option<bool>,
    pub plugin: Option<bool>,
    pub harness: Option<bool>,
    pub edition: Option<Edition>,
    pub required_features: Option<Seq<Seq<char>>>,
    pub crate_type: Option<Seq<Seq<char>>>,
}

impl DeepView for ExampleTarget {
    type V = ExampleTargetModel;

    open spec fn deep_view(&self) -> ExampleTargetModel {
        ExampleTargetModel {
            name: self.name.deep_view(),
            path: self.path.deep_view(),
            test: self.test.deep_view(),
            doctest: self.doctest.deep_view(),
            bench: self.bench.deep_view(),
            doc: self.doc.deep_view(),
            plugin: self.plugin.deep_view(),
            harness: self.harness.deep_view(),
            edition: self.edition.deep_view(),
            required_features: self.required_features.deep_view(),
            crate_type: self.crate_type.deep_view(),
        }
    }
}

impl Decode for ExampleTarget {
    /// A table decodes field by field, in the order of declaration; the first
    /// field that fails gives the failure. Keys that no field names are ignored.
    open spec fn decoded(node: Node) -> Result<ExampleTargetModel, Fault> {
        match node {
            Node::Table(t) => {
                let name = optional_field::<String>(t, "name"@);
                let path = optional_field::<String>(t, "path"@);
                let test = optional_field::<bool>(t, "test"@);
                let doctest = optional_field::<bool>(t, "doctest"@);
                let bench = optional_field::<bool>(t, "bench"@);
                let doc = optional_field::<bool>(t, "doc"@);
                let plugin = optional_field::<bool>(t, "plugin"@);
                let harness = optional_field::<bool>(t, "harness"@);
                let edition = optional_field::<Edition>(t, "edition"@);
                let required_features = optional_field::<Vec<String>>(t, "required-features"@);
                let crate_type = optional_field::<Vec<String>>(t, "crate-type"@);
                if name is Err {
                    Err(name->Err_0)
                } else if path is Err {
                    Err(path->Err_0)
                } else if test is Err {
                    Err(test->Err_0)
                } else if doctest is Err {
                    Err(doctest->Err_0)
                } else if bench is Err {
                    Err(bench->Err_0)
                } else if doc is Err {
                    Err(doc->Err_0)
                } else if plugin is Err {
                    Err(plugin->Err_0)
                } else if harness is Err {
                    Err(harness->Err_0)
                } else if edition is Err {
                    Err(edition->Err_0)
                } else if required_features is Err {
                    Err(required_features->Err_0)
                } else if crate_type is Err {
                    Err(crate_type->Err_0)
                } else {
                    Ok(ExampleTargetModel {
                        name: name->Ok_0,
                        path: path->Ok_0,
                        test: test->Ok_0,
                        doctest: doctest->Ok_0,
                        bench: bench->Ok_0,
                        doc: doc->Ok_0,
                        plugin: plugin->Ok_0,
                        harness: harness->Ok_0,
                        edition: edition->Ok_0,
                        required_features: required_features->Ok_0,
                        crate_type: crate_type->Ok_0,
                    })
                }
            },
            _ => Err(mismatch(Kind::Table, node)),
        }
    }

    fn decode(value: &ValueNode) -> (r: Result<Self, DecodeError>) {
        let t = table_of(value)?;
        let name = field::<String>(t, "name")?;
        let path = field::<String>(t, "path")?;
        let test = field::<bool>(t, "test")?;
        let doctest = field::<bool>(t, "doctest")?;
        let bench = field::<bool>(t, "bench")?;
        let doc = field::<bool>(t, "doc")?;
        let plugin = field::<bool>(t, "plugin")?;
        let harness = field::<bool>(t, "harness")?;
        let edition = field::<Edition>(t, "edition")?;
        let required_features = field::<Vec<String>>(t, "required-features")?;
        let crate_type = field::<Vec<String>>(t, "crate-type")?;
        Ok(
            ExampleTarget {
                name,
                path,
                test,
                doctest,
                bench,
                doc,
                plugin,
                harness,
                edition,
                required_features,
                crate_type,
            },
        )
    }
}

} // verus!
