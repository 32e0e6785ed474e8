//! Random dataset generation: a fresh table name, a random schema, and
//! the CREATE TABLE / INSERT statements that materialize it.  Executing
//! the statements against an engine happens outside the library; the
//! plan itself is a function of the seed and the configuration.

use vstd::prelude::*;

use crate::context::{spec_table_name, GlobalContext};
use crate::numfmt::{lemma_join_push, spec_dec_digits, spec_join, u64_to_string};
use crate::rng::{rng_word, word_in_range_u64, word_index, FuzzerRng};
use crate::numfmt::spec_str_views;
use crate::types::{
    get_available_data_types, spec_available_data_types, spec_col_models, ColumnModel,
    FuzzerDataType, LogicalColumn, LogicalTable, TableModel,
};
use crate::value::{
    generate_value, spec_generate_value, spec_value_sql, GeneratedValue, ValueGenerationConfig,
    ValueModel,
};

verus! {

/// The derived name of column `i` (zero-based) of a table: the table
/// name, the one-based position and the type's display name.
pub open spec fn spec_column_name(table: Seq<char>, i: int, ty: FuzzerDataType) -> Seq<char> {
    "col_"@ + table + "_"@ + spec_dec_digits(i + 1) + "_"@ + ty.spec_display_name()
}

/// The column types that `n` draws from stream position `k` pick.
pub open spec fn spec_pick_types(seed: u64, k: int, n: int) -> Seq<FuzzerDataType>
    decreases n,
{
    if n <= 0 {
        Seq::<FuzzerDataType>::empty()
    } else {
        spec_pick_types(seed, k, n - 1).push(
            spec_available_data_types()[word_index(rng_word(seed, k + n - 1), 12)],
        )
    }
}

/// Every picked column type comes from the fixed available list.
pub proof fn lemma_pick_types_valid(seed: u64, k: int, n: int)
    ensures
        forall|i: int|
            0 <= i < spec_pick_types(seed, k, n).len() ==> spec_available_data_types().contains(
                #[trigger] spec_pick_types(seed, k, n)[i],
            ),
    decreases n,
{
    if n > 0 {
        lemma_pick_types_valid(seed, k, n - 1);
        let picked = spec_pick_types(seed, k, n);
        let j = word_index(rng_word(seed, k + n - 1), 12);
        assert(0 <= j < 12);
        assert(picked.last() == spec_available_data_types()[j]);
        assert(spec_available_data_types().contains(picked.last()));
        assert forall|i: int|
            0 <= i < picked.len() implies spec_available_data_types().contains(
            #[trigger] picked[i],
        ) by {
            if i < picked.len() - 1 {
                assert(picked[i] == spec_pick_types(seed, k, n - 1)[i]);
            }
        }
    }
}

/// The columns of a table: derived names paired with the picked types.
pub open spec fn spec_columns(table: Seq<char>, types: Seq<FuzzerDataType>) -> Seq<ColumnModel> {
    Seq::new(
        types.len(),
        |i: int| ColumnModel { name: spec_column_name(table, i, types[i]), data_type: types[i] },
    )
}

/// One column definition inside CREATE TABLE.
pub open spec fn spec_column_def(c: ColumnModel) -> Seq<char> {
    c.name + " "@ + c.data_type.spec_sql_type()
}

/// The column definitions of a column list, in order.
pub open spec fn spec_column_defs(cols: Seq<ColumnModel>) -> Seq<Seq<char>> {
    cols.map_values(|c: ColumnModel| spec_column_def(c))
}

/// The CREATE TABLE statement for a table.
pub open spec fn spec_create_table_sql(name: Seq<char>, cols: Seq<ColumnModel>) -> Seq<char> {
    "CREATE TABLE "@ + name + " (\n    "@ + spec_join(spec_column_defs(cols), ",\n    "@)
        + "\n);"@
}

/// The first `j` values of a row (and the stream position after them).
pub open spec fn spec_row_prefix(
    seed: u64,
    k: int,
    types: Seq<FuzzerDataType>,
    vcfg: ValueGenerationConfig,
    j: int,
) -> (Seq<ValueModel>, int)
    decreases j,
{
    if j <= 0 {
        (Seq::<ValueModel>::empty(), k)
    } else {
        let prev = spec_row_prefix(seed, k, types, vcfg, j - 1);
        let v = spec_generate_value(types[j - 1], vcfg, seed, prev.1);
        (prev.0.push(v.0), v.1)
    }
}

/// A whole row of values for the given column types.
pub open spec fn spec_value_row(
    seed: u64,
    k: int,
    types: Seq<FuzzerDataType>,
    vcfg: ValueGenerationConfig,
) -> (Seq<ValueModel>, int) {
    spec_row_prefix(seed, k, types, vcfg, types.len() as int)
}

/// `m` rows of values (and the stream position after them).
pub open spec fn spec_value_rows(
    seed: u64,
    k: int,
    types: Seq<FuzzerDataType>,
    vcfg: ValueGenerationConfig,
    m: int,
) -> (Seq<Seq<ValueModel>>, int)
    decreases m,
{
    if m <= 0 {
        (Seq::<Seq<ValueModel>>::empty(), k)
    } else {
        let prev = spec_value_rows(seed, k, types, vcfg, m - 1);
        let row = spec_value_row(seed, prev.1, types, vcfg);
        (prev.0.push(row.0), row.1)
    }
}

/// `m` rows are `m` rows.
pub proof fn lemma_value_rows_len(
    seed: u64,
    k: int,
    types: Seq<FuzzerDataType>,
    vcfg: ValueGenerationConfig,
    m: int,
)
    requires
        m >= 0,
    ensures
        spec_value_rows(seed, k, types, vcfg, m).0.len() == m,
    decreases m,
{
    if m > 0 {
        lemma_value_rows_len(seed, k, types, vcfg, m - 1);
    }
}

/// The rendered SQL literals of a row, in order.
pub open spec fn spec_value_sqls(row: Seq<ValueModel>) -> Seq<Seq<char>> {
    row.map_values(|v: ValueModel| spec_value_sql(v))
}

/// The INSERT statements of a sequence of rows, in order.
pub open spec fn spec_insert_sqls(name: Seq<char>, rows: Seq<Seq<ValueModel>>) -> Seq<Seq<char>> {
    rows.map_values(|row: Seq<ValueModel>| spec_insert_sql(name, row))
}

/// The INSERT statement for one row.
pub open spec fn spec_insert_sql(name: Seq<char>, row: Seq<ValueModel>) -> Seq<char> {
    "INSERT INTO "@ + name + " VALUES ("@ + spec_join(spec_value_sqls(row), ", "@) + ");"@
}

/// The model of a generated dataset: the table, its DDL and DML, and
/// the stream position after generation.
pub ghost struct DatasetModel {
    pub table: TableModel,
    pub create_sql: Seq<char>,
    pub inserts: Seq<Seq<char>>,
    pub next_k: int,
}

/// Everything dataset generation decides, as a function of the stream
/// seed and position, the configuration and the assigned table name.
pub open spec fn spec_generate_dataset(
    seed: u64,
    k: int,
    max_column_count: u64,
    max_row_count: u64,
    max_insert_per_table: u32,
    vcfg: ValueGenerationConfig,
    name: Seq<char>,
) -> DatasetModel {
    let ncols = word_in_range_u64(rng_word(seed, k), 1, max_column_count);
    let types = spec_pick_types(seed, k + 1, ncols as int);
    let cols = spec_columns(name, types);
    let k1 = k + 1 + ncols;
    let row_count = word_in_range_u64(rng_word(seed, k1), 0, (max_row_count - 1) as u64);
    let m = if row_count < max_insert_per_table as u64 {
        row_count
    } else {
        max_insert_per_table as u64
    };
    let rows = spec_value_rows(seed, k1 + 1, types, vcfg, m as int);
    DatasetModel {
        table: TableModel { name, columns: cols },
        create_sql: spec_create_table_sql(name, cols),
        inserts: spec_insert_sqls(name, rows.0),
        next_k: rows.1,
    }
}

/// A generated dataset: the table, and the SQL statements that create
/// and fill it.
#[derive(Debug)]
pub struct DatasetPlan {
    pub create_table_sql: String,
    pub insert_statements: Vec<String>,
    pub table: LogicalTable,
}

/// Generates random tables: schema, data, and the SQL to materialize
/// both.
pub struct DatasetGenerator {
    pub rng: FuzzerRng,
}

impl DatasetGenerator {
    /// A generator with its own stream seeded from `seed`.
    pub fn new(seed: u64) -> (r: Self)
        ensures
            r.rng.seed() == seed,
            r.rng.drawn() == 0,
    {
        DatasetGenerator { rng: crate::rng::rng_from_seed(seed) }
    }

    /// Generate a dataset: take a fresh table name, pick a random
    /// schema and rows, render the CREATE TABLE and INSERT statements,
    /// and register the table.  Everything produced is a function of
    /// the generator's stream state, the configuration and the name
    /// counter.
    pub fn generate_dataset(&mut self, ctx: &mut GlobalContext) -> (r: DatasetPlan)
        requires
            old(ctx).runner_config.wf(),
            old(ctx).runtime_context.value_generation_config.wf(),
            old(ctx).runtime_context.table_idx() < u64::MAX,
        ensures
            ({
                let dm = spec_generate_dataset(
                    old(self).rng.seed(),
                    old(self).rng.drawn(),
                    old(ctx).runner_config.max_column_count,
                    old(ctx).runner_config.max_row_count,
                    old(ctx).runner_config.max_insert_per_table,
                    old(ctx).runtime_context.value_generation_config,
                    spec_table_name(old(ctx).runtime_context.table_idx() as int),
                );
                &&& r.table@ == dm.table
                &&& r.create_table_sql@ == dm.create_sql
                &&& spec_str_views(r.insert_statements@) == dm.inserts
                &&& final(self).rng.seed() == old(self).rng.seed()
                &&& final(self).rng.drawn() == dm.next_k
                &&& final(ctx).runtime_context.tables() == old(ctx).runtime_context.tables().push(
                    dm.table,
                )
                &&& final(ctx).runtime_context.table_idx() == old(
                    ctx,
                ).runtime_context.table_idx() + 1
                &&& final(ctx).runner_config == old(ctx).runner_config
                &&& final(ctx).runtime_context.value_generation_config == old(
                    ctx,
                ).runtime_context.value_generation_config
                &&& 1 <= r.table@.columns.len() <= old(ctx).runner_config.max_column_count
            }),
    {
        let ghost seed = self.rng.seed();
        let ghost k0 = self.rng.drawn();

        let table_name = ctx.runtime_context.next_table_name();
        let num_columns = self.rng.next_range_u64(1, ctx.runner_config.max_column_count);

        // Pick a random type for each column.
        let available = get_available_data_types();
        let mut types: Vec<FuzzerDataType> = Vec::new();
        let mut i: u64 = 0;
        while i < num_columns
            invariant
                i <= num_columns,
                available@ == spec_available_data_types(),
                self.rng.seed() == seed,
                self.rng.drawn() == k0 + 1 + i,
                types@ == spec_pick_types(seed, k0 + 1, i as int),
                types@.len() == i,
            decreases num_columns - i,
        {
            let idx = self.rng.next_index(12);
            types.push(available[idx]);
            i += 1;
        }

        // Derive the column list and the CREATE TABLE statement.
        let columns = build_columns(&table_name, &types);
        let create_table_sql = build_create_table_sql(&table_name, &columns);

        // Decide how many rows to insert.
        let row_count = self.rng.next_range_u64(0, ctx.runner_config.max_row_count - 1);
        let max_inserts = ctx.runner_config.max_insert_per_table as u64;
        let num_inserts: u64 = if row_count < max_inserts {
            row_count
        } else {
            max_inserts
        };

        // Generate each row and render its INSERT statement.
        let ghost k1 = self.rng.drawn();
        let mut insert_statements: Vec<String> = Vec::new();
        let mut row: u64 = 0;
        while row < num_inserts
            invariant
                row <= num_inserts,
                self.rng.seed() == seed,
                ctx.runtime_context.value_generation_config.wf(),
                ({
                    let rows = spec_value_rows(
                        seed,
                        k1,
                        types@,
                        ctx.runtime_context.value_generation_config,
                        row as int,
                    );
                    &&& self.rng.drawn() == rows.1
                    &&& spec_str_views(insert_statements@) == spec_insert_sqls(
                        table_name@,
                        rows.0,
                    )
                }),
            decreases num_inserts - row,
        {
            proof {
                lemma_value_rows_len(
                    seed,
                    k1,
                    types@,
                    ctx.runtime_context.value_generation_config,
                    row as int,
                );
                lemma_value_rows_len(
                    seed,
                    k1,
                    types@,
                    ctx.runtime_context.value_generation_config,
                    row + 1,
                );
                let rows_now = spec_value_rows(
                    seed,
                    k1,
                    types@,
                    ctx.runtime_context.value_generation_config,
                    row as int,
                );
                assert(spec_str_views(insert_statements@) == spec_insert_sqls(
                    table_name@,
                    rows_now.0,
                ));
                assert(rows_now.0.len() == row);
                assert(spec_insert_sqls(table_name@, rows_now.0).len() == row);
                assert(spec_str_views(insert_statements@).len() == row);
                assert(insert_statements@.len() == row);
            }
            let stmt = generate_insert_sql(
                &mut self.rng,
                &table_name,
                &types,
                &ctx.runtime_context.value_generation_config,
            );
            insert_statements.push(stmt);
            proof {
                let vcfg = ctx.runtime_context.value_generation_config;
                let rows_now = spec_value_rows(seed, k1, types@, vcfg, row as int);
                let rows_new = spec_value_rows(seed, k1, types@, vcfg, row + 1);
                let new_row = spec_value_row(seed, rows_now.1, types@, vcfg);
                assert(rows_new.0 == rows_now.0.push(new_row.0));
                assert(stmt@ == spec_insert_sql(table_name@, new_row.0));
                lemma_value_rows_len(seed, k1, types@, vcfg, row as int);
                assert forall|j: int| 0 <= j < rows_new.0.len() implies spec_str_views(
                    insert_statements@,
                )[j] == spec_insert_sqls(table_name@, rows_new.0)[j] by {
                    if j < row {
                        assert(spec_str_views(insert_statements@)[j] == spec_str_views(
                            insert_statements@.drop_last(),
                        )[j]);
                        assert(spec_insert_sqls(table_name@, rows_new.0)[j] == spec_insert_sqls(
                            table_name@,
                            rows_now.0,
                        )[j]);
                    }
                }
                assert(spec_str_views(insert_statements@) =~~= spec_insert_sqls(
                    table_name@,
                    rows_new.0,
                ));
            }
            row += 1;
        }

        // Register the table.
        let table = LogicalTable { name: table_name, columns };
        let table_copy = table.duplicate();
        ctx.runtime_context.register_table(table_copy);

        DatasetPlan { create_table_sql, insert_statements, table }
    }
}

/// Derive the column list for the picked types.
fn build_columns(table_name: &String, types: &Vec<FuzzerDataType>) -> (r: Vec<LogicalColumn>)
    ensures
        spec_col_models(r@) == spec_columns(table_name@, types@),
{
    let mut columns: Vec<LogicalColumn> = Vec::new();
    let mut i: usize = 0;
    while i < types.len()
        invariant
            i <= types.len(),
            spec_col_models(columns@) == spec_columns(table_name@, types@.take(i as int)),
        decreases types.len() - i,
    {
        proof {
            reveal_strlit("col_");
            reveal_strlit("_");
            assert(spec_columns(table_name@, types@.take(i as int)).len() == i);
            assert(spec_col_models(columns@).len() == i);
            assert(columns@.len() == i);
        }
        let mut name = "col_".to_owned();
        name.append(table_name.as_str());
        name.append("_");
        name.append(u64_to_string((i as u64) + 1).as_str());
        name.append("_");
        name.append(types[i].display_name());
        assert(name@ =~= spec_column_name(table_name@, i as int, types@[i as int]));
        columns.push(LogicalColumn { name, data_type: types[i] });
        proof {
            assert(columns@.len() == i + 1);
            assert(spec_col_models(columns@).len() == i + 1);
            assert(spec_columns(table_name@, types@.take(i + 1)).len() == i + 1);
            assert(spec_col_models(columns@)[i as int] == columns@[i as int]@);
            assert(columns@[i as int]@.name == spec_column_name(table_name@, i as int, types@[i as int]));
            assert(spec_columns(table_name@, types@.take(i + 1))[i as int].name == spec_column_name(table_name@, i as int, types@[i as int]));
            assert(spec_col_models(columns@)[i as int] == spec_columns(table_name@, types@.take(i + 1))[i as int]);
            assert(forall|j: int| 0 <= j < i ==> spec_col_models(columns@)[j] == spec_columns(table_name@, types@.take(i as int))[j]);
            assert(forall|j: int| 0 <= j < i ==> spec_columns(table_name@, types@.take(i + 1))[j] == spec_columns(table_name@, types@.take(i as int))[j]);
            assert(spec_col_models(columns@) =~~= spec_columns(table_name@, types@.take(i + 1)));
        }
        i += 1;
    }
    proof {
        assert(types@.take(types@.len() as int) =~= types@);
    }
    columns
}

/// Render the CREATE TABLE statement.
fn build_create_table_sql(table_name: &String, columns: &Vec<LogicalColumn>) -> (r: String)
    ensures
        r@ == spec_create_table_sql(table_name@, spec_col_models(columns@)),
{
    proof {
        reveal_strlit("CREATE TABLE ");
        reveal_strlit(" (\n    ");
        reveal_strlit(",\n    ");
        reveal_strlit(" ");
        reveal_strlit("\n);");
    }
    let mut s = "CREATE TABLE ".to_owned();
    s.append(table_name.as_str());
    s.append(" (\n    ");
    let ghost cols = spec_col_models(columns@);
    let ghost defs = spec_column_defs(cols);
    let mut i: usize = 0;
    while i < columns.len()
        invariant
            i <= columns.len(),
            cols == spec_col_models(columns@),
            defs == spec_column_defs(cols),
            s@ == "CREATE TABLE "@ + table_name@ + " (\n    "@ + spec_join(
                defs.take(i as int),
                ",\n    "@,
            ),
        decreases columns.len() - i,
    {
        proof {
            reveal_strlit(",\n    ");
            reveal_strlit(" ");
        }
        if i > 0 {
            s.append(",\n    ");
        }
        s.append(columns[i].name.as_str());
        s.append(" ");
        s.append(columns[i].data_type.to_sql_type());
        proof {
            assert(defs[i as int] == columns@[i as int]@.name + " "@
                + columns@[i as int]@.data_type.spec_sql_type());
            if i > 0 {
                lemma_join_push(defs.take(i as int), ",\n    "@, defs[i as int]);
            }
            assert(defs.take(i + 1) =~= defs.take(i as int).push(defs[i as int]));
            assert(s@ =~= "CREATE TABLE "@ + table_name@ + " (\n    "@ + spec_join(
                defs.take(i + 1),
                ",\n    "@,
            ));
        }
        i += 1;
    }
    s.append("\n);");
    proof {
        assert(defs.take(defs.len() as int) =~= defs);
        assert(s@ =~= spec_create_table_sql(table_name@, cols));
    }
    s
}

/// Generate one row of values and render its INSERT statement.
fn generate_insert_sql(
    rng: &mut FuzzerRng,
    table_name: &String,
    types: &Vec<FuzzerDataType>,
    vcfg: &ValueGenerationConfig,
) -> (r: String)
    requires
        vcfg.wf(),
    ensures
        final(rng).seed() == old(rng).seed(),
        ({
            let row = spec_value_row(old(rng).seed(), old(rng).drawn(), types@, *vcfg);
            &&& final(rng).drawn() == row.1
            &&& r@ == spec_insert_sql(table_name@, row.0)
        }),
{
    let ghost seed = rng.seed();
    let ghost k0 = rng.drawn();
    proof {
        reveal_strlit("INSERT INTO ");
        reveal_strlit(" VALUES (");
        reveal_strlit(", ");
        reveal_strlit(");");
    }
    let mut s = "INSERT INTO ".to_owned();
    s.append(table_name.as_str());
    s.append(" VALUES (");
    let ghost prefix0 = s@;
    let mut j: usize = 0;
    while j < types.len()
        invariant
            j <= types.len(),
            vcfg.wf(),
            rng.seed() == seed,
            prefix0 == "INSERT INTO "@ + table_name@ + " VALUES ("@,
            ({
                let pre = spec_row_prefix(seed, k0, types@, *vcfg, j as int);
                &&& rng.drawn() == pre.1
                &&& s@ == prefix0 + spec_join(spec_value_sqls(pre.0), ", "@)
            }),
        decreases types.len() - j,
    {
        proof {
            reveal_strlit(", ");
        }
        let v = generate_value(rng, &types[j], vcfg);
        if j > 0 {
            s.append(", ");
        }
        s.append(v.to_sql_string().as_str());
        proof {
            let pre_old = spec_row_prefix(seed, k0, types@, *vcfg, j as int);
            let pre_new = spec_row_prefix(seed, k0, types@, *vcfg, j + 1);
            let vals_old = spec_value_sqls(pre_old.0);
            let vals_new = spec_value_sqls(pre_new.0);
            assert(vals_new =~= vals_old.push(spec_value_sql(v@)));
            if j > 0 {
                lemma_join_push(vals_old, ", "@, spec_value_sql(v@));
            }
            assert(s@ =~= prefix0 + spec_join(vals_new, ", "@));
        }
        j += 1;
    }
    s.append(");");
    proof {
        assert(s@ =~= spec_insert_sql(
            table_name@,
            spec_value_row(seed, k0, types@, *vcfg).0,
        ));
    }
    s
}

} // verus!
