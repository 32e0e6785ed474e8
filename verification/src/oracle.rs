//! Test oracles: generate one or more related queries, judge the
//! consistency of their execution results, and write an error report
//! when a check fails.  Executing a query is the engine's job; results
//! come back here as plain values.

use vstd::prelude::*;

use crate::context::GlobalContext;
use crate::stmt::{
    lemma_stmt_sql_matches_model, spec_generate_stmt, spec_stmt_sql_of, SelectStatementBuilder,
};
use crate::types::FuzzerError;

verus! {

/// A SQL query with an optional human-readable description of the
/// session configuration it runs under.  The engine session handle
/// itself lives outside the library.
#[derive(Debug)]
pub struct QueryContext {
    pub query: String,
    pub context_description: Option<String>,
}

/// The mathematical model of a query context.
pub ghost struct QueryContextModel {
    pub query: Seq<char>,
    pub context_description: Option<Seq<char>>,
}

impl View for QueryContext {
    type V = QueryContextModel;

    open spec fn view(&self) -> QueryContextModel {
        QueryContextModel {
            query: self.query@,
            context_description: match self.context_description {
                Some(ref d) => Some(d@),
                None => None,
            },
        }
    }
}

impl QueryContext {
    /// A query context without a description.
    pub fn new(query: String) -> (r: QueryContext)
        ensures
            r@.query == query@,
            r@.context_description is None,
    {
        QueryContext { query, context_description: None }
    }

    /// A query context with a description of its configuration.
    pub fn with_description(query: String, description: String) -> (r: QueryContext)
        ensures
            r@.query == query@,
            r@.context_description == Some(description@),
    {
        QueryContext { query, context_description: Some(description) }
    }

    /// The display text of a context.
    pub open spec fn spec_display_description(m: QueryContextModel) -> Seq<char> {
        match m.context_description {
            Some(d) => "Query with "@ + d + ": "@ + m.query,
            None => "Query: "@ + m.query,
        }
    }

    /// Get a display-friendly description of this query-context pair.
    pub fn display_description(&self) -> (r: String)
        ensures
            r@ == Self::spec_display_description(self@),
    {
        proof {
            reveal_strlit("Query with ");
            reveal_strlit(": ");
            reveal_strlit("Query: ");
        }
        match &self.context_description {
            Some(desc) => {
                let mut s = "Query with ".to_owned();
                s.append(desc.as_str());
                s.append(": ");
                s.append(self.query.as_str());
                assert(s@ =~= Self::spec_display_description(self@));
                s
            },
            None => {
                let mut s = "Query: ".to_owned();
                s.append(self.query.as_str());
                assert(s@ =~= Self::spec_display_description(self@));
                s
            },
        }
    }

    /// Wrap plain query strings as contexts, in order.
    pub fn from_queries(queries: Vec<String>) -> (r: Vec<QueryContext>)
        ensures
            r@.len() == queries@.len(),
            forall|i: int|
                0 <= i < r@.len() ==> #[trigger] r@[i]@.query == queries@[i]@ && r@[
                    i
                ]@.context_description is None,
    {
        let mut out: Vec<QueryContext> = Vec::new();
        let mut i: usize = 0;
        while i < queries.len()
            invariant
                i <= queries@.len(),
                out@.len() == i,
                forall|q: int|
                    0 <= q < i ==> #[trigger] out@[q]@.query == queries@[q]@ && out@[
                        q
                    ]@.context_description is None,
            decreases queries@.len() - i,
        {
            out.push(QueryContext { query: queries[i].clone(), context_description: None });
            i += 1;
        }
        out
    }

    /// The query texts of a list of contexts, in order.
    pub fn get_queries(query_contexts: &Vec<QueryContext>) -> (r: Vec<String>)
        ensures
            r@.len() == query_contexts@.len(),
            forall|i: int| 0 <= i < r@.len() ==> #[trigger] r@[i]@ == query_contexts@[i]@.query,
    {
        let mut out: Vec<String> = Vec::new();
        let mut i: usize = 0;
        while i < query_contexts.len()
            invariant
                i <= query_contexts@.len(),
                out@.len() == i,
                forall|q: int| 0 <= q < i ==> #[trigger] out@[q]@ == query_contexts@[q]@.query,
            decreases query_contexts@.len() - i,
        {
            out.push(query_contexts[i].query.clone());
            i += 1;
        }
        out
    }
}

/// A query's execution outcome: the number of result batches, or the
/// engine's error message.
#[derive(Debug)]
pub struct QueryExecutionResult {
    pub query_context: QueryContext,
    pub result: Result<u64, String>,
}

impl QueryExecutionResult {
    /// The error message carried by a failed result.
    pub open spec fn spec_error_text(&self) -> Seq<char>
        recommends
            self.result is Err,
    {
        match self.result {
            Ok(_) => Seq::<char>::empty(),
            Err(ref e) => e@,
        }
    }
}

/// The report a no-crash check writes: the failing query, its context,
/// the error detail when there is one, and the expected-versus-actual
/// statement.
pub open spec fn spec_no_crash_report(results: Seq<QueryExecutionResult>) -> Seq<char> {
    "No-Crash Oracle Test Failed\n============================\n\n"@ + (if results.len() > 0 {
        let first = results[0];
        "Query that caused non-whitelisted error/crash:\n"@ + first.query_context@.query + "\n\n"@
            + "Context: "@ + QueryContext::spec_display_description(first.query_context@) + "\n\n"@
            + (match first.result {
            Ok(_) => Seq::<char>::empty(),
            Err(e) => "Error details: "@ + e@ + "\n\n"@,
        })
    } else {
        Seq::<char>::empty()
    })
        + "Expected: Query should execute without crashing or return a whitelisted error\nActual: Query crashed or returned a non-whitelisted error\n\nThis indicates a potential stability issue in the query engine.\nThe query should either return valid results or a graceful whitelisted error message.\nWhitelisted errors are acceptable and expected (e.g., divide by zero).\n"@
}

/// The report a nested-queries check writes.
pub open spec fn spec_nested_report(results: Seq<QueryExecutionResult>) -> Seq<char> {
    "Nested Queries Oracle Test Failed\n==================================\n\n"@ + (if results.len()
        > 0 {
        let first = results[0];
        "Nested query that caused inconsistency or error:\n"@ + first.query_context@.query
            + "\n\n"@ + "Context: "@ + QueryContext::spec_display_description(
            first.query_context@,
        ) + "\n\n"@ + (match first.result {
            Ok(_) => Seq::<char>::empty(),
            Err(e) => "Error details: "@ + e@ + "\n\n"@,
        })
    } else {
        Seq::<char>::empty()
    })
        + "Expected: Nested queries with views/subqueries should execute consistently\nActual: Query produced inconsistent results or non-whitelisted error\n\nThis indicates a potential issue with nested query processing.\nNested queries involving views and subqueries should produce consistent results.\nWhitelisted errors are acceptable and expected (e.g., divide by zero).\n"@
}

/// An oracle that generates random queries and expects them not to
/// crash or produce non-whitelisted errors; the whitelist check itself
/// happens at execution time, so consistency validation always passes
/// on non-empty results.
#[derive(Debug)]
pub struct NoCrashOracle {
    pub seed: u64,
}

impl NoCrashOracle {
    /// Create a new no-crash oracle with the given generation seed.
    pub fn new(seed: u64) -> (r: Self)
        ensures
            r.seed == seed,
    {
        NoCrashOracle { seed }
    }

    /// Generate the query group: one random query over base tables.
    /// Fails exactly when no table is registered; the query text is a
    /// function of the seed, the configuration and the registry.
    pub fn generate_query_group(&self, ctx: &GlobalContext) -> (r: Result<
        Vec<QueryContext>,
        FuzzerError,
    >)
        requires
            ctx.runner_config.wf(),
            ctx.runtime_context.value_generation_config.wf(),
        ensures
            r is Ok <==> ctx.runtime_context.tables().len() > 0,
            r is Ok ==> r->Ok_0@.len() == 1,
            r is Ok ==> r->Ok_0@[0]@.context_description == Some(
                "Random Query No-Crash Test"@,
            ),
            r is Ok ==> r->Ok_0@[0]@.query == spec_stmt_sql_of(
                spec_generate_stmt(
                    self.seed,
                    0,
                    ctx.runner_config.max_table_count,
                    ctx.runner_config.max_expr_level,
                    ctx.runtime_context.value_generation_config,
                    ctx.runtime_context.tables(),
                ),
            ),
    {
        let ghost m = spec_generate_stmt(
            self.seed,
            0,
            ctx.runner_config.max_table_count,
            ctx.runner_config.max_expr_level,
            ctx.runtime_context.value_generation_config,
            ctx.runtime_context.tables(),
        );
        let mut stmt_builder = SelectStatementBuilder::new(self.seed).with_allow_derived_tables(
            false,
        );
        let stmt = match stmt_builder.generate_stmt(ctx) {
            Ok(s) => s,
            Err(e) => {
                return Err(e);
            },
        };
        proof {
            lemma_stmt_sql_matches_model(&stmt, m);
        }
        let sql = stmt.to_sql_string();
        let query_context = QueryContext::with_description(
            sql,
            "Random Query No-Crash Test".to_owned(),
        );
        let mut group: Vec<QueryContext> = Vec::new();
        group.push(query_context);
        Ok(group)
    }

    /// Validate the consistency of a group of execution results: the
    /// no-crash oracle passes whenever it has results to look at.
    pub fn validate_consistency(&self, results: &Vec<QueryExecutionResult>) -> (r: Result<
        (),
        FuzzerError,
    >)
        ensures
            r is Ok <==> results@.len() > 0,
    {
        if results.len() == 0 {
            return Err(crate::types::fuzzer_err("No query results to validate"));
        }
        Ok(())
    }

    /// Create a detailed error report after a failed check.
    pub fn create_error_report(&self, results: &Vec<QueryExecutionResult>) -> (r: String)
        ensures
            r@ == spec_no_crash_report(results@),
    {
        proof {
            reveal_strlit("No-Crash Oracle Test Failed\n============================\n\n");
            reveal_strlit("Query that caused non-whitelisted error/crash:\n");
            reveal_strlit("\n\n");
            reveal_strlit("Context: ");
            reveal_strlit("Error details: ");
            reveal_strlit(
                "Expected: Query should execute without crashing or return a whitelisted error\nActual: Query crashed or returned a non-whitelisted error\n\nThis indicates a potential stability issue in the query engine.\nThe query should either return valid results or a graceful whitelisted error message.\nWhitelisted errors are acceptable and expected (e.g., divide by zero).\n",
            );
        }
        let mut report = "No-Crash Oracle Test Failed\n============================\n\n".to_owned();
        if results.len() > 0 {
            let first = &results[0];
            report.append("Query that caused non-whitelisted error/crash:\n");
            report.append(first.query_context.query.as_str());
            report.append("\n\n");
            report.append("Context: ");
            report.append(first.query_context.display_description().as_str());
            report.append("\n\n");
            match &first.result {
                Ok(_) => (),
                Err(e) => {
                    report.append("Error details: ");
                    report.append(e.as_str());
                    report.append("\n\n");
                },
            }
        }
        report.append(
            "Expected: Query should execute without crashing or return a whitelisted error\nActual: Query crashed or returned a non-whitelisted error\n\nThis indicates a potential stability issue in the query engine.\nThe query should either return valid results or a graceful whitelisted error message.\nWhitelisted errors are acceptable and expected (e.g., divide by zero).\n",
        );
        assert(report@ =~= spec_no_crash_report(results@));
        report
    }
}

/// An oracle that tests query consistency over derived tables (views
/// and subqueries).
#[derive(Debug)]
pub struct NestedQueriesOracle {
    pub seed: u64,
}

impl NestedQueriesOracle {
    /// Create a new nested-queries oracle with the given generation
    /// seed.
    pub fn new(seed: u64) -> (r: Self)
        ensures
            r.seed == seed,
    {
        NestedQueriesOracle { seed }
    }

    /// Generate the query group: one random query that may reference
    /// derived tables, over at most three sources.
    pub fn generate_query_group(&self, ctx: &GlobalContext) -> (r: Result<
        Vec<QueryContext>,
        FuzzerError,
    >)
        requires
            ctx.runner_config.wf(),
            ctx.runtime_context.value_generation_config.wf(),
        ensures
            r is Ok <==> ctx.runtime_context.tables().len() > 0,
            r is Ok ==> r->Ok_0@.len() == 1,
            r is Ok ==> r->Ok_0@[0]@.context_description == Some(
                "Nested Queries Consistency Test"@,
            ),
            r is Ok ==> r->Ok_0@[0]@.query == spec_stmt_sql_of(
                spec_generate_stmt(
                    self.seed,
                    0,
                    3,
                    ctx.runner_config.max_expr_level,
                    ctx.runtime_context.value_generation_config,
                    ctx.runtime_context.tables(),
                ),
            ),
    {
        let ghost m = spec_generate_stmt(
            self.seed,
            0,
            3,
            ctx.runner_config.max_expr_level,
            ctx.runtime_context.value_generation_config,
            ctx.runtime_context.tables(),
        );
        let mut stmt_builder = SelectStatementBuilder::new(self.seed).with_allow_derived_tables(
            true,
        ).with_max_table_count(3);
        let stmt = match stmt_builder.generate_stmt(ctx) {
            Ok(s) => s,
            Err(e) => {
                return Err(e);
            },
        };
        proof {
            lemma_stmt_sql_matches_model(&stmt, m);
        }
        let sql = stmt.to_sql_string();
        let query_context = QueryContext::with_description(
            sql,
            "Nested Queries Consistency Test".to_owned(),
        );
        let mut group: Vec<QueryContext> = Vec::new();
        group.push(query_context);
        Ok(group)
    }

    /// Validate the consistency of a group of execution results.
    pub fn validate_consistency(&self, results: &Vec<QueryExecutionResult>) -> (r: Result<
        (),
        FuzzerError,
    >)
        ensures
            r is Ok <==> results@.len() > 0,
    {
        if results.len() == 0 {
            return Err(crate::types::fuzzer_err("No query results to validate"));
        }
        Ok(())
    }

    /// Create a detailed error report after a failed check.
    pub fn create_error_report(&self, results: &Vec<QueryExecutionResult>) -> (r: String)
        ensures
            r@ == spec_nested_report(results@),
    {
        proof {
            reveal_strlit("Nested Queries Oracle Test Failed\n==================================\n\n");
            reveal_strlit("Nested query that caused inconsistency or error:\n");
            reveal_strlit("\n\n");
            reveal_strlit("Context: ");
            reveal_strlit("Error details: ");
            reveal_strlit(
                "Expected: Nested queries with views/subqueries should execute consistently\nActual: Query produced inconsistent results or non-whitelisted error\n\nThis indicates a potential issue with nested query processing.\nNested queries involving views and subqueries should produce consistent results.\nWhitelisted errors are acceptable and expected (e.g., divide by zero).\n",
            );
        }
        let mut report =
            "Nested Queries Oracle Test Failed\n==================================\n\n".to_owned();
        if results.len() > 0 {
            let first = &results[0];
            report.append("Nested query that caused inconsistency or error:\n");
            report.append(first.query_context.query.as_str());
            report.append("\n\n");
            report.append("Context: ");
            report.append(first.query_context.display_description().as_str());
            report.append("\n\n");
            match &first.result {
                Ok(_) => (),
                Err(e) => {
                    report.append("Error details: ");
                    report.append(e.as_str());
                    report.append("\n\n");
                },
            }
        }
        report.append(
            "Expected: Nested queries with views/subqueries should execute consistently\nActual: Query produced inconsistent results or non-whitelisted error\n\nThis indicates a potential issue with nested query processing.\nNested queries involving views and subqueries should produce consistent results.\nWhitelisted errors are acceptable and expected (e.g., divide by zero).\n",
        );
        assert(report@ =~= spec_nested_report(results@));
        report
    }
}

/// A no-crash report always contains the failing query's text.
pub proof fn lemma_report_contains_query(results: Seq<QueryExecutionResult>)
    requires
        results.len() > 0,
    ensures
        crate::whitelist::spec_contains_sub(
            spec_no_crash_report(results),
            results[0].query_context@.query,
        ),
{
    let header = "No-Crash Oracle Test Failed\n============================\n\n"@
        + "Query that caused non-whitelisted error/crash:\n"@;
    let report = spec_no_crash_report(results);
    let q = results[0].query_context@.query;
    assert(report.subrange(header.len() as int, header.len() + q.len() as int) =~= q);
}

} // verus!
