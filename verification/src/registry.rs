//! The tool registry: a frozen mapping from tool name to description and
//! parameter schema, shared read-only by every session.

use vstd::prelude::*;
use crate::codec::{FieldKind, Schema, fib_schema_spec, fetch_schema_spec, process_schema_spec,
    db_schema_spec, fibonacci_schema, fetch_schema, process_schema, db_schema};

verus! {

/// One registered tool: its unique name, a human-readable description,
/// and its declared parameter schema.
pub struct ToolDescriptor {
    pub name: String,
    pub description: String,
    pub schema: Schema,
}

impl View for ToolDescriptor {
    type V = (Seq<char>, Seq<char>, Seq<(Seq<char>, FieldKind)>);

    open spec fn view(&self) -> (Seq<char>, Seq<char>, Seq<(Seq<char>, FieldKind)>) {
        (self.name@, self.description@, self.schema@)
    }
}

/// The registry: an ordered list of descriptors, built at startup and
/// immutable while serving.
pub struct Registry {
    pub tools: Vec<ToolDescriptor>,
}

impl View for Registry {
    type V = Seq<(Seq<char>, Seq<char>, Seq<(Seq<char>, FieldKind)>)>;

    open spec fn view(&self) -> Seq<(Seq<char>, Seq<char>, Seq<(Seq<char>, FieldKind)>)> {
        Seq::new(self.tools@.len(), |i: int| self.tools@[i]@)
    }
}

/// The first descriptor registered under `name`, if any.
pub open spec fn spec_lookup(
    reg: Seq<(Seq<char>, Seq<char>, Seq<(Seq<char>, FieldKind)>)>,
    name: Seq<char>,
) -> Option<(Seq<char>, Seq<char>, Seq<(Seq<char>, FieldKind)>)>
    decreases reg,
{
    if reg.len() == 0 {
        Option::None
    } else if reg[0].0 == name {
        Option::Some(reg[0])
    } else {
        spec_lookup(reg.drop_first(), name)
    }
}

/// Whether no two descriptors share a name.
pub open spec fn names_unique(
    reg: Seq<(Seq<char>, Seq<char>, Seq<(Seq<char>, FieldKind)>)>,
) -> bool {
    forall|i: int, j: int| 0 <= i < j < reg.len() ==> reg[i].0 != reg[j].0
}

/// The registry the server starts with: the four benchmark tools, in
/// registration order.
pub open spec fn registry_spec() -> Seq<(Seq<char>, Seq<char>, Seq<(Seq<char>, FieldKind)>)> {
    seq![
        (
            "calculate_fibonacci"@,
            "Calculate a Fibonacci number recursively (CPU-bound)"@,
            fib_schema_spec(),
        ),
        (
            "fetch_external_data"@,
            "Fetch data from an external HTTP endpoint"@,
            fetch_schema_spec(),
        ),
        (
            "process_json_data"@,
            "Process JSON data by uppercasing all string values"@,
            process_schema_spec(),
        ),
        (
            "simulate_database_query"@,
            "Simulate a database query with configurable delay"@,
            db_schema_spec(),
        ),
    ]
}

/// The four registered names carry four different strings.
pub proof fn lemma_registry_names_unique()
    ensures
        names_unique(registry_spec()),
{
    reveal_strlit("calculate_fibonacci");
    reveal_strlit("fetch_external_data");
    reveal_strlit("process_json_data");
    reveal_strlit("simulate_database_query");
    assert("calculate_fibonacci"@.len() == 19);
    assert("fetch_external_data"@.len() == 19);
    assert("process_json_data"@.len() == 17);
    assert("simulate_database_query"@.len() == 23);
    assert("calculate_fibonacci"@[0] == 'c');
    assert("fetch_external_data"@[0] == 'f');
}

impl Registry {
    /// Builds the frozen startup registry holding the four benchmark
    /// tools.
    pub fn new() -> (r: Registry)
        ensures
            r@ == registry_spec(),
            names_unique(r@),
    {
        let mut tools: Vec<ToolDescriptor> = Vec::new();
        tools.push(
            ToolDescriptor {
                name: "calculate_fibonacci".to_owned(),
                description: "Calculate a Fibonacci number recursively (CPU-bound)".to_owned(),
                schema: fibonacci_schema(),
            },
        );
        tools.push(
            ToolDescriptor {
                name: "fetch_external_data".to_owned(),
                description: "Fetch data from an external HTTP endpoint".to_owned(),
                schema: fetch_schema(),
            },
        );
        tools.push(
            ToolDescriptor {
                name: "process_json_data".to_owned(),
                description: "Process JSON data by uppercasing all string values".to_owned(),
                schema: process_schema(),
            },
        );
        tools.push(
            ToolDescriptor {
                name: "simulate_database_query".to_owned(),
                description: "Simulate a database query with configurable delay".to_owned(),
                schema: db_schema(),
            },
        );
        let r = Registry { tools };
        proof {
            assert(r@ =~~= registry_spec());
            lemma_registry_names_unique();
        }
        r
    }

    /// Adds one descriptor at startup. A name already registered is a
    /// configuration error: the registry is left unchanged and the
    /// duplicate descriptor is handed back.
    pub fn register(&mut self, d: ToolDescriptor) -> (r: Result<(), ToolDescriptor>)
        ensures
            (exists|i: int| 0 <= i < old(self)@.len() && old(self)@[i].0 == d.name@) ==> (
            r matches Err(dd) && dd@ == d@ && final(self)@ == old(self)@),
            (forall|i: int| 0 <= i < old(self)@.len() ==> old(self)@[i].0 != d.name@) ==> (
            r is Ok && final(self)@ == old(self)@.push(d@)),
    {
        let n = self.tools.len();
        let mut i: usize = 0;
        while i < n
            invariant
                i <= n,
                n == self.tools@.len(),
                forall|k: int| 0 <= k < i ==> self@[k].0 != d.name@,
            decreases n - i,
        {
            if self.tools[i].name.eq(&d.name) {
                proof {
                    assert(self@[i as int].0 == d.name@);
                }
                return Err(d);
            }
            i = i + 1;
        }
        self.tools.push(d);
        proof {
            assert(self@ =~~= old(self)@.push((d.name@, d.description@, d.schema@)));
        }
        Ok(())
    }

    /// Looks a tool up by name: the first descriptor with that name, as
    /// `spec_lookup` describes.
    pub fn lookup<'a>(&'a self, name: &String) -> (r: Option<&'a ToolDescriptor>)
        ensures
            match r {
                Option::Some(d) => spec_lookup(self@, name@) == Option::Some(d@),
                Option::None => spec_lookup(self@, name@) is None,
            },
    {
        proof {
            assert(self@.skip(0) =~= self@);
        }
        let n = self.tools.len();
        let mut i: usize = 0;
        while i < n
            invariant
                i <= n,
                n == self.tools@.len(),
                spec_lookup(self@, name@) == spec_lookup(self@.skip(i as int), name@),
            decreases n - i,
        {
            if self.tools[i].name.eq(name) {
                proof {
                    assert(self@.skip(i as int)[0] == self@[i as int]);
                }
                return Some(&self.tools[i]);
            }
            proof {
                assert(self@.skip(i as int)[0] == self@[i as int]);
                assert(self@.skip(i as int).drop_first() =~= self@.skip(i as int + 1));
            }
            i = i + 1;
        }
        proof {
            assert(self@.skip(n as int).len() == 0);
        }
        None
    }

    /// The ordered list of registered tools, for capability discovery.
    pub fn list(&self) -> (r: &Vec<ToolDescriptor>)
        ensures
            r@.len() == self@.len(),
            forall|i: int| 0 <= i < r@.len() ==> (#[trigger] r@[i])@ == self@[i],
    {
        &self.tools
    }
}

/// The parameter shape each tool's decoder accepts, by name.
pub open spec fn codec_schema(name: Seq<char>) -> Seq<(Seq<char>, FieldKind)> {
    if name == "calculate_fibonacci"@ {
        fib_schema_spec()
    } else if name == "fetch_external_data"@ {
        fetch_schema_spec()
    } else if name == "process_json_data"@ {
        process_schema_spec()
    } else {
        db_schema_spec()
    }
}

/// What `spec_lookup` hands back is a registered descriptor carrying the
/// name that was asked for.
pub proof fn lemma_spec_lookup_entry(
    reg: Seq<(Seq<char>, Seq<char>, Seq<(Seq<char>, FieldKind)>)>,
    nm: Seq<char>,
    d: (Seq<char>, Seq<char>, Seq<(Seq<char>, FieldKind)>),
)
    requires
        spec_lookup(reg, nm) == Option::Some(d),
    ensures
        d.0 == nm,
        exists|i: int| 0 <= i < reg.len() && reg[i] == d,
    decreases reg,
{
    if reg.len() > 0 {
        if reg[0].0 == nm {
            assert(0 <= 0 < reg.len() && reg[0] == d);
        } else {
            lemma_spec_lookup_entry(reg.drop_first(), nm, d);
            let i = choose|i: int| 0 <= i < reg.drop_first().len() && reg.drop_first()[i] == d;
            assert(reg.drop_first()[i] == reg[i + 1]);
            assert(0 <= i + 1 < reg.len() && reg[i + 1] == d);
        }
    }
}

/// Every descriptor the startup registry hands out carries exactly the
/// schema its tool's decoder validates against: the registry's declared
/// shapes and the codec's accepted shapes agree, tool for tool.
pub proof fn lemma_registry_schemas_match_codec(nm: Seq<char>, d: (
    Seq<char>,
    Seq<char>,
    Seq<(Seq<char>, FieldKind)>,
))
    requires
        spec_lookup(registry_spec(), nm) == Option::Some(d),
    ensures
        d.0 == nm,
        d.2 == codec_schema(nm),
{
    lemma_spec_lookup_entry(registry_spec(), nm, d);
    let i = choose|i: int| 0 <= i < registry_spec().len() && registry_spec()[i] == d;
    reveal_strlit("calculate_fibonacci");
    reveal_strlit("fetch_external_data");
    reveal_strlit("process_json_data");
    reveal_strlit("simulate_database_query");
    assert("calculate_fibonacci"@.len() == 19);
    assert("fetch_external_data"@.len() == 19);
    assert("process_json_data"@.len() == 17);
    assert("simulate_database_query"@.len() == 23);
    assert("calculate_fibonacci"@[0] == 'c');
    assert("fetch_external_data"@[0] == 'f');
    assert(i == 0 || i == 1 || i == 2 || i == 3);
}


} // verus!
