use vstd::prelude::*;

verus! {

/// Whether `pattern` is a valid regular expression, that is, whether
/// `regex::Regex::new` accepts it. Compilation is a function of the pattern
/// text alone.
pub uninterp spec fn regex_valid(pattern: Seq<char>) -> bool;

/// Whether the regular expression `pattern` matches anywhere in `text`.
/// Meaningful only for valid patterns; matching is a function of the pattern
/// and the text alone.
pub uninterp spec fn regex_match(pattern: Seq<char>, text: Seq<char>) -> bool;

/// Relies on regex::Regex::new: it returns Ok exactly on patterns that are
/// valid regular expressions, deciding validity from the pattern text alone.
#[verifier::external_body]
fn regex_compiles(pattern: &str) -> (b: bool)
    ensures
        b == regex_valid(pattern@),
{
    regex::Regex::new(pattern).is_ok()
}

/// Relies on regex::Regex::new and regex::Regex::is_match: compiling a valid
/// pattern succeeds, and `is_match` returns true if and only if the compiled
/// expression matches anywhere in the haystack, a function of the pattern and
/// haystack texts alone.
#[verifier::external_body]
fn regex_fragment_match(pattern: &str, text: &str) -> (b: bool)
    requires
        regex_valid(pattern@),
    ensures
        b == regex_match(pattern@, text@),
{
    match regex::Regex::new(pattern) {
        Ok(re) => re.is_match(text),
        Err(_) => false,
    }
}

/// The mathematical model of a schema (and of a schema definition): the
/// pattern text and the recipe text.
pub struct SchemaView {
    pub pattern: Seq<char>,
    pub recipe: Seq<char>,
}

/// A schema's pattern compiles: the catalog never holds a schema whose
/// pattern is not a valid regular expression.
pub open spec fn schema_wf(s: SchemaView) -> bool {
    regex_valid(s.pattern)
}

/// One recognized command shape: a text pattern matched against the leading
/// command fragment, and a recipe describing the transformation steps to
/// apply to that command's output.
#[derive(Debug, Clone)]
pub struct Schema {
    pub pattern: String,
    pub recipe: String,
}

impl View for Schema {
    type V = SchemaView;

    open spec fn view(&self) -> SchemaView {
        SchemaView { pattern: self.pattern@, recipe: self.recipe@ }
    }
}

impl Schema {
    /// Builds a schema, rejecting a pattern that does not compile: an invalid
    /// pattern never enters a catalog (and so never silently matches
    /// anything).
    pub fn new(pattern: &str, recipe: &str) -> (r: Option<Schema>)
        ensures
            r is Some <==> regex_valid(pattern@),
            r matches Some(s) ==> s@ == (SchemaView { pattern: pattern@, recipe: recipe@ })
                && schema_wf(s@),
    {
        if regex_compiles(pattern) {
            Some(
                Schema {
                    pattern: String::from_str(pattern),
                    recipe: String::from_str(recipe),
                },
            )
        } else {
            None
        }
    }
}

/// A schema definition as handed to the catalog builder: the same shape as a
/// schema, but with a pattern not yet known to compile.
#[derive(Debug, Clone)]
pub struct SchemaDef {
    pub pattern: String,
    pub recipe: String,
}

impl View for SchemaDef {
    type V = SchemaView;

    open spec fn view(&self) -> SchemaView {
        SchemaView { pattern: self.pattern@, recipe: self.recipe@ }
    }
}

/// The model of a sequence of schemas or definitions.
pub open spec fn schemas_view(schemas: Seq<Schema>) -> Seq<SchemaView> {
    schemas.map_values(|s: Schema| s@)
}

/// The model of a sequence of schema definitions.
pub open spec fn defs_view(defs: Seq<SchemaDef>) -> Seq<SchemaView> {
    defs.map_values(|d: SchemaDef| d@)
}

/// The index of the first schema whose pattern matches the fragment, in
/// catalog order, if any: order determines match priority, first match wins.
pub open spec fn find_spec(schemas: Seq<SchemaView>, fragment: Seq<char>) -> Option<int>
    decreases schemas.len(),
{
    if schemas.len() == 0 {
        None
    } else if regex_match(schemas[0].pattern, fragment) {
        Some(0int)
    } else {
        match find_spec(schemas.drop_first(), fragment) {
            Some(i) => Some(i + 1),
            None => None,
        }
    }
}

/// `find_spec` indeed selects the first matching schema: its result is in
/// range, matches, and nothing earlier matches; and it is `None` only when
/// nothing matches at all.
pub proof fn lemma_find_spec_sound(schemas: Seq<SchemaView>, fragment: Seq<char>)
    ensures
        find_spec(schemas, fragment) matches Some(i) ==> 0 <= i < schemas.len()
            && regex_match(schemas[i].pattern, fragment) && forall|j: int|
            0 <= j < i ==> !regex_match(schemas[j].pattern, fragment),
        find_spec(schemas, fragment) is None ==> forall|j: int|
            0 <= j < schemas.len() ==> !regex_match(schemas[j].pattern, fragment),
    decreases schemas.len(),
{
    if schemas.len() > 0 && !regex_match(schemas[0].pattern, fragment) {
        lemma_find_spec_sound(schemas.drop_first(), fragment);
        assert forall|j: int| 1 <= j < schemas.len() implies schemas.drop_first()[j - 1]
            == schemas[j] by {}
    }
}

/// A position whose schema matches while no earlier schema does is exactly
/// the one `find_spec` selects.
pub proof fn lemma_find_spec_at(schemas: Seq<SchemaView>, fragment: Seq<char>, i: int)
    requires
        0 <= i < schemas.len(),
        regex_match(schemas[i].pattern, fragment),
        forall|j: int| 0 <= j < i ==> !regex_match(schemas[j].pattern, fragment),
    ensures
        find_spec(schemas, fragment) == Some(i),
    decreases i,
{
    if i > 0 {
        assert forall|j: int| 0 <= j < i - 1 implies !regex_match(
            schemas.drop_first()[j].pattern,
            fragment,
        ) by {
            assert(schemas.drop_first()[j] == schemas[j + 1]);
        }
        lemma_find_spec_at(schemas.drop_first(), fragment, i - 1);
    }
}

/// Catalog match is deterministic and order-stable: whenever two schemas
/// both match a fragment, the selected schema is never later than the
/// earlier of the two, for every catalog ordering and fragment.
pub proof fn lemma_match_order_stable(
    schemas: Seq<SchemaView>,
    fragment: Seq<char>,
    i: int,
    j: int,
)
    requires
        0 <= i < j < schemas.len(),
        regex_match(schemas[i].pattern, fragment),
        regex_match(schemas[j].pattern, fragment),
    ensures
        find_spec(schemas, fragment) matches Some(k) && k <= i,
{
    lemma_find_spec_sound(schemas, fragment);
    if find_spec(schemas, fragment) is None {
        assert(!regex_match(schemas[i].pattern, fragment));
    } else {
        let k = find_spec(schemas, fragment)->Some_0;
        if k > i {
            assert(!regex_match(schemas[i].pattern, fragment));
        }
    }
}

/// An ordered collection of schemas. Order determines match priority; first
/// match wins. Duplicate patterns are permitted, but only the earliest is
/// ever reachable.
#[derive(Debug)]
pub struct Catalog {
    pub schemas: Vec<Schema>,
}

impl View for Catalog {
    type V = Seq<SchemaView>;

    open spec fn view(&self) -> Seq<SchemaView> {
        schemas_view(self.schemas@)
    }
}

impl Catalog {
    /// Every schema in the catalog holds a pattern that compiles.
    pub open spec fn wf(&self) -> bool {
        forall|i: int| 0 <= i < self@.len() ==> schema_wf(#[trigger] self@[i])
    }

    /// Returns the first schema, in catalog order, whose pattern matches
    /// anywhere in the fragment, or `None` when no schema matches.
    pub fn find(&self, fragment: &str) -> (r: Option<&Schema>)
        requires
            self.wf(),
        ensures
            r is Some <==> find_spec(self@, fragment@) is Some,
            r matches Some(s) ==> find_spec(self@, fragment@) matches Some(i) && s@ == self@[i],
    {
        let n = self.schemas.len();
        let mut i: usize = 0;
        while i < n
            invariant
                0 <= i <= n,
                n == self@.len(),
                self.wf(),
                forall|j: int| 0 <= j < i ==> !regex_match((#[trigger] self@[j]).pattern, fragment@),
            decreases n - i,
        {
            let schema = &self.schemas[i];
            proof {
                assert(schema_wf(self@[i as int]));
            }
            if regex_fragment_match(schema.pattern.as_str(), fragment) {
                proof {
                    lemma_find_spec_at(self@, fragment@, i as int);
                }
                return Some(schema);
            }
            i += 1;
        }
        proof {
            lemma_find_spec_sound(self@, fragment@);
            if find_spec(self@, fragment@) is Some {
                let k = find_spec(self@, fragment@)->Some_0;
                assert(!regex_match(self@[k].pattern, fragment@));
            }
        }
        None
    }
}

/// The definitions whose patterns compile, in their given order: the schemas
/// an invocation of the builder keeps.
pub open spec fn accepted_schemas(defs: Seq<SchemaView>) -> Seq<SchemaView>
    decreases defs.len(),
{
    if defs.len() == 0 {
        Seq::empty()
    } else {
        let front = accepted_schemas(defs.drop_last());
        if regex_valid(defs.last().pattern) {
            front.push(defs.last())
        } else {
            front
        }
    }
}

/// The definitions whose patterns do not compile, in their given order: the
/// entries the builder rejects.
pub open spec fn rejected_defs(defs: Seq<SchemaView>) -> Seq<SchemaView>
    decreases defs.len(),
{
    if defs.len() == 0 {
        Seq::empty()
    } else {
        let front = rejected_defs(defs.drop_last());
        if regex_valid(defs.last().pattern) {
            front
        } else {
            front.push(defs.last())
        }
    }
}

impl Catalog {
    /// Builds a catalog from a list of definitions, compiling each pattern.
    /// A definition whose pattern fails to compile is dropped from the
    /// catalog and returned among the rejected entries instead, so that one
    /// bad pattern never prevents construction: building never fails
    /// outright.
    pub fn build(defs: &Vec<SchemaDef>) -> (r: (Catalog, Vec<SchemaDef>))
        ensures
            r.0.wf(),
            r.0@ == accepted_schemas(defs_view(defs@)),
            defs_view(r.1@) == rejected_defs(defs_view(defs@)),
    {
        let mut schemas: Vec<Schema> = Vec::new();
        let mut rejected: Vec<SchemaDef> = Vec::new();
        let n = defs.len();
        let mut i: usize = 0;
        while i < n
            invariant
                0 <= i <= n,
                n == defs@.len(),
                schemas_view(schemas@) == accepted_schemas(defs_view(defs@.take(i as int))),
                defs_view(rejected@) == rejected_defs(defs_view(defs@.take(i as int))),
                forall|j: int| 0 <= j < schemas@.len() ==> schema_wf(
                    #[trigger] schemas_view(schemas@)[j],
                ),
            decreases n - i,
        {
            let def = &defs[i];
            proof {
                assert(defs_view(defs@.take(i + 1)).drop_last() =~= defs_view(
                    defs@.take(i as int),
                ));
                assert(defs_view(defs@.take(i + 1)).last() == def@);
            }
            match Schema::new(def.pattern.as_str(), def.recipe.as_str()) {
                Some(schema) => {
                    let ghost old_schemas = schemas@;
                    schemas.push(schema);
                    proof {
                        assert(schemas_view(schemas@) =~= schemas_view(old_schemas).push(
                            schema@,
                        ));
                        assert(schemas_view(schemas@) =~= accepted_schemas(
                            defs_view(defs@.take(i + 1)),
                        ));
                    }
                },
                None => {
                    let ghost old_rejected = rejected@;
                    rejected.push(
                        SchemaDef { pattern: def.pattern.clone(), recipe: def.recipe.clone() },
                    );
                    proof {
                        assert(defs_view(rejected@) =~= defs_view(old_rejected).push(def@));
                        assert(defs_view(rejected@) =~= rejected_defs(
                            defs_view(defs@.take(i + 1)),
                        ));
                        assert(schemas_view(schemas@) =~= accepted_schemas(
                            defs_view(defs@.take(i + 1)),
                        ));
                    }
                },
            }
            i += 1;
        }
        proof {
            assert(defs@.take(n as int) =~= defs@);
        }
        (Catalog { schemas }, rejected)
    }
}

/// The built-in schema recognizing `git status` invocations.
pub open spec fn git_status_schema() -> SchemaView {
    SchemaView {
        pattern: r"^git(\s+)status"@,
        recipe: "lines | skip 4 | parse --regex '(?<status>modified|deleted)'"@,
    }
}

/// The built-in schema recognizing `git log` invocations.
pub open spec fn git_log_schema() -> SchemaView {
    SchemaView { pattern: r"^git(\s+)log"@, recipe: "parse \"commit {COMMIT_SHA}\""@ }
}

/// What `load` produces: the built-in schemas, in registration order, each
/// present exactly when its pattern compiles.
pub open spec fn loaded_catalog() -> Seq<SchemaView> {
    let status_valid = regex_valid(git_status_schema().pattern);
    let log_valid = regex_valid(git_log_schema().pattern);
    if status_valid && log_valid {
        seq![git_status_schema(), git_log_schema()]
    } else if status_valid {
        seq![git_status_schema()]
    } else if log_valid {
        seq![git_log_schema()]
    } else {
        Seq::empty()
    }
}

/// The static schema definitions the engine starts from.
pub fn default_definitions() -> (defs: Vec<SchemaDef>)
    ensures
        defs@.len() == 2,
        defs@[0]@ == git_status_schema(),
        defs@[1]@ == git_log_schema(),
{
    let mut defs: Vec<SchemaDef> = Vec::new();
    defs.push(
        SchemaDef {
            pattern: String::from_str(r"^git(\s+)status"),
            recipe: String::from_str(
                "lines | skip 4 | parse --regex '(?<status>modified|deleted)'",
            ),
        },
    );
    defs.push(
        SchemaDef {
            pattern: String::from_str(r"^git(\s+)log"),
            recipe: String::from_str("parse \"commit {COMMIT_SHA}\""),
        },
    );
    defs
}

impl Catalog {
    /// Builds the catalog of built-in schemas, compiling each pattern and
    /// dropping any definition whose pattern fails to compile: construction
    /// never fails outright.
    pub fn load() -> (r: Catalog)
        ensures
            r.wf(),
            r@ == loaded_catalog(),
    {
        let defs = default_definitions();
        let (catalog, _rejected) = Catalog::build(&defs);
        proof {
            let dv = defs_view(defs@);
            let d0 = defs@[0]@;
            let d1 = defs@[1]@;
            assert(dv.len() == 2);
            assert(dv.last() == d1);
            assert(dv.drop_last() =~= seq![d0]);
            let a1 = accepted_schemas(seq![d0]);
            assert(seq![d0].last() == d0);
            assert(seq![d0].drop_last() =~= Seq::<SchemaView>::empty());
            assert(accepted_schemas(Seq::<SchemaView>::empty()) =~= Seq::<SchemaView>::empty());
            if regex_valid(d0.pattern) {
                assert(a1 =~= seq![d0]);
            } else {
                assert(a1 =~= Seq::<SchemaView>::empty());
            }
            if regex_valid(d1.pattern) {
                assert(accepted_schemas(dv) =~= a1.push(d1));
            } else {
                assert(accepted_schemas(dv) =~= a1);
            }
            assert(accepted_schemas(dv) =~= loaded_catalog());
        }
        catalog
    }
}

} // verus!

