//! Per-run shared state: the table registry, the table-name counter and
//! the configuration, owned by one context object with an explicit
//! construct - use - reset lifecycle.

use vstd::prelude::*;

use crate::config::{spec_is_default_runner_config, RunnerConfig};
use crate::numfmt::{spec_dec_digits, u64_to_string};
use crate::types::{spec_col_models, LogicalColumn, LogicalTable, TableModel};
use crate::value::{spec_default_value_config, ValueGenerationConfig};

verus! {

/// The models of a table list, in order.
pub open spec fn spec_table_models(ts: Seq<LogicalTable>) -> Seq<TableModel> {
    ts.map_values(|t: LogicalTable| t@)
}

/// The table name for counter value `idx`: `t0`, `t1`, ...
pub open spec fn spec_table_name(idx: int) -> Seq<char> {
    "t"@ + spec_dec_digits(idx)
}

/// Mutable per-run state: the registered tables, the name counter and
/// the cached value-generation configuration.
#[derive(Debug)]
pub struct RuntimeContext {
    pub registered_tables: Vec<LogicalTable>,
    pub current_table_idx: u64,
    pub value_generation_config: ValueGenerationConfig,
}

impl RuntimeContext {
    /// The value of the table-name counter.
    pub open spec fn table_idx(&self) -> u64 {
        self.current_table_idx
    }

    /// The models of the registered tables, in registration order.
    pub open spec fn tables(&self) -> Seq<TableModel> {
        spec_table_models(self.registered_tables@)
    }

    /// An empty registry with the counter at zero and the default value
    /// configuration.
    pub fn new() -> (r: Self)
        ensures
            r.tables().len() == 0,
            r.table_idx() == 0,
            r.value_generation_config == spec_default_value_config(),
    {
        RuntimeContext {
            registered_tables: Vec::new(),
            current_table_idx: 0,
            value_generation_config: Default::default(),
        }
    }

    /// Hand out the next table name and advance the counter.
    pub fn next_table_name(&mut self) -> (r: String)
        requires
            old(self).table_idx() < u64::MAX,
        ensures
            r@ == spec_table_name(old(self).table_idx() as int),
            final(self).table_idx() == old(self).table_idx() + 1,
            final(self).tables() == old(self).tables(),
            final(self).value_generation_config == old(self).value_generation_config,
    {
        proof {
            reveal_strlit("t");
        }
        let mut name = "t".to_owned();
        name.append(u64_to_string(self.current_table_idx).as_str());
        self.current_table_idx = self.current_table_idx + 1;
        assert(name@ =~= spec_table_name(old(self).table_idx() as int));
        name
    }

    /// Reset the table counter to zero, whatever its prior state, so
    /// that the next names restart at `t0`, `t1`, ...
    pub fn reset_table_counter(&mut self)
        ensures
            final(self).table_idx() == 0,
            final(self).tables() == old(self).tables(),
            final(self).value_generation_config == old(self).value_generation_config,
    {
        self.current_table_idx = 0;
    }

    /// Register a table under its name.
    pub fn register_table(&mut self, table: LogicalTable)
        ensures
            final(self).tables() == old(self).tables().push(table@),
            final(self).table_idx() == old(self).table_idx(),
            final(self).value_generation_config == old(self).value_generation_config,
    {
        self.registered_tables.push(table);
        assert(final(self).tables() =~= old(self).tables().push(table@));
    }

    /// Register a view under its name, together with its introspected
    /// output schema, which the embedding probes from the engine after
    /// executing CREATE VIEW and hands in as plain column values.
    pub fn register_view(&mut self, name: String, columns: Vec<LogicalColumn>)
        ensures
            final(self).tables() == old(self).tables().push(
                TableModel { name: name@, columns: spec_col_models(columns@) },
            ),
            final(self).table_idx() == old(self).table_idx(),
            final(self).value_generation_config == old(self).value_generation_config,
    {
        self.register_table(LogicalTable { name, columns });
    }

    /// Drop every registered table.
    pub fn clear_tables(&mut self)
        ensures
            final(self).tables().len() == 0,
            final(self).table_idx() == old(self).table_idx(),
            final(self).value_generation_config == old(self).value_generation_config,
    {
        self.registered_tables.clear();
        assert(final(self).tables() =~= Seq::<TableModel>::empty());
    }
}

impl Default for RuntimeContext {
    fn default() -> (r: Self)
        ensures
            r.tables().len() == 0,
            r.table_idx() == 0,
            r.value_generation_config == spec_default_value_config(),
    {
        Self::new()
    }
}

/// Everything a run shares: the configuration and the runtime state.
/// The engine session itself lives outside the library; resetting this
/// context models dropping every table between rounds.
#[derive(Debug)]
pub struct GlobalContext {
    pub runner_config: RunnerConfig,
    pub runtime_context: RuntimeContext,
}

impl GlobalContext {
    pub fn new(runner_config: RunnerConfig, runtime_context: RuntimeContext) -> (r: Self)
        ensures
            r.runner_config == runner_config,
            r.runtime_context == runtime_context,
    {
        GlobalContext { runner_config, runtime_context }
    }

    pub fn default() -> (r: Self)
        ensures
            spec_is_default_runner_config(r.runner_config),
            r.runtime_context.tables().len() == 0,
            r.runtime_context.table_idx() == 0,
            r.runtime_context.value_generation_config == spec_default_value_config(),
    {
        GlobalContext { runner_config: Default::default(), runtime_context: RuntimeContext::new() }
    }

    /// Reset the per-round state: drop every registered table and reset
    /// the table counter.  (The caller discards its engine session
    /// alongside.)
    pub fn reset_datafusion_context(&mut self)
        ensures
            final(self).runtime_context.tables().len() == 0,
            final(self).runtime_context.table_idx() == 0,
            final(self).runner_config == old(self).runner_config,
            final(self).runtime_context.value_generation_config == old(
                self,
            ).runtime_context.value_generation_config,
    {
        self.runtime_context.clear_tables();
        self.runtime_context.reset_table_counter();
    }
}

} // verus!

verus! {

/// Distinct counter values give distinct table names, so every name
/// the counter hands out within a run is unique.
pub proof fn lemma_table_names_injective(a: int, b: int)
    requires
        0 <= a,
        0 <= b,
        a != b,
    ensures
        spec_table_name(a) != spec_table_name(b),
{
    if spec_table_name(a) == spec_table_name(b) {
        proof_table_name_digits(a);
        proof_table_name_digits(b);
        crate::numfmt::lemma_parse_dec_digits(a);
        crate::numfmt::lemma_parse_dec_digits(b);
        assert(crate::numfmt::spec_parse_dec(spec_dec_digits(a)) == crate::numfmt::spec_parse_dec(
            spec_dec_digits(b),
        ));
    }
}

/// The digits of a table name are everything after the leading `t`.
proof fn proof_table_name_digits(i: int)
    ensures
        spec_table_name(i).skip(1) == spec_dec_digits(i),
{
    reveal_strlit("t");
    assert(spec_table_name(i).skip(1) =~= spec_dec_digits(i));
}

} // verus!
