//! Schema versions and the migration plan.
//!
//! A schema version is a dotted list of numbers ("2.0.4").  Each part that
//! reads as a `u32` counts; parts that do not are skipped.  Versions compare
//! part by part, a shorter list coming first when it is a prefix.

use vstd::prelude::*;

use crate::text::str_eq;

verus! {

// ---------------------------------------------------------------------
// Splitting and parsing
// ---------------------------------------------------------------------

/// The '.'-separated segments of `s`, empty segments included; the empty
/// string has one empty segment.
pub open spec fn dot_segments(s: Seq<char>) -> Seq<Seq<char>>
    decreases s.len(),
{
    if s.len() == 0 {
        seq![Seq::empty()]
    } else {
        let prev = dot_segments(s.drop_last());
        if s.last() == '.' {
            prev.push(Seq::empty())
        } else {
            prev.update(prev.len() - 1, prev.last().push(s.last()))
        }
    }
}

/// Whether `c` is an ASCII decimal digit.
pub open spec fn is_digit(c: char) -> bool {
    '0' <= c <= '9'
}

/// Value of a decimal digit character.
pub open spec fn digit_value(c: char) -> nat {
    (c as nat - '0' as nat) as nat
}

/// Value of a string of decimal digits.
pub open spec fn decimal_value(s: Seq<char>) -> nat
    decreases s.len(),
{
    if s.len() == 0 {
        0
    } else {
        decimal_value(s.drop_last()) * 10 + digit_value(s.last())
    }
}

/// The digits of a segment after an optional leading '+'.
pub open spec fn unsigned_body(s: Seq<char>) -> Seq<char> {
    if s.len() > 0 && s[0] == '+' {
        s.subrange(1, s.len() as int)
    } else {
        s
    }
}

/// `u32` parsing: an optional '+', then one or more decimal digits whose
/// value fits in a `u32`.
pub open spec fn parse_u32_spec(s: Seq<char>) -> Option<u32> {
    let body = unsigned_body(s);
    if body.len() > 0 && (forall|i: int| 0 <= i < body.len() ==> is_digit(body[i]))
        && decimal_value(body) <= u32::MAX {
        Some(decimal_value(body) as u32)
    } else {
        None
    }
}

/// The parts of a list of segments that parse as `u32`, in order.
pub open spec fn parsed_parts(segs: Seq<Seq<char>>) -> Seq<u32>
    decreases segs.len(),
{
    if segs.len() == 0 {
        Seq::empty()
    } else {
        let prev = parsed_parts(segs.drop_last());
        match parse_u32_spec(segs.last()) {
            Some(v) => prev.push(v),
            None => prev,
        }
    }
}

/// The numeric parts of a version string.
pub open spec fn version_parts(s: Seq<char>) -> Seq<u32> {
    parsed_parts(dot_segments(s))
}

/// Lexicographic order on part lists: the first differing part decides,
/// and a proper prefix comes first.
pub open spec fn parts_less(a: Seq<u32>, b: Seq<u32>) -> bool
    decreases a.len(),
{
    if a.len() == 0 || b.len() == 0 {
        a.len() < b.len()
    } else if a[0] < b[0] {
        true
    } else if a[0] > b[0] {
        false
    } else {
        parts_less(a.drop_first(), b.drop_first())
    }
}

/// Whether version `a` comes before version `b`.
pub open spec fn version_before(a: Seq<char>, b: Seq<char>) -> bool {
    parts_less(version_parts(a), version_parts(b))
}

/// Splits at every '.'.
fn split_dots(s: &str) -> (r: Vec<String>)
    ensures
        r@.map_values(|x: String| x@) == dot_segments(s@),
{
    let n = s.unicode_len();
    let mut segs: Vec<String> = Vec::new();
    segs.push(String::new());
    let mut i: usize = 0;
    assert(s@.take(0) =~= Seq::<char>::empty());
    assert(segs@.map_values(|x: String| x@) =~= dot_segments(s@.take(0)));
    while i < n
        invariant
            n == s@.len(),
            i <= n,
            segs@.len() >= 1,
            segs@.map_values(|x: String| x@) == dot_segments(s@.take(i as int)),
        decreases n - i,
    {
        let c = s.get_char(i);
        let ghost before = segs@.map_values(|x: String| x@);
        assert(s@.take(i + 1).drop_last() =~= s@.take(i as int));
        assert(s@.take(i + 1).last() == c);
        if c == '.' {
            segs.push(String::new());
            assert(segs@.map_values(|x: String| x@) =~= before.push(Seq::empty()));
        } else {
            let last = segs.len() - 1;
            let mut cur = segs.pop().unwrap();
            crate::text::push_char(&mut cur, c);
            segs.push(cur);
            assert(segs@.map_values(|x: String| x@) =~= before.update(
                before.len() - 1,
                before.last().push(c),
            ));
        }
        i += 1;
    }
    assert(s@.take(n as int) =~= s@);
    segs
}

fn digit_of(c: char) -> (r: Option<u64>)
    ensures
        match r {
            Some(d) => is_digit(c) && d == digit_value(c) && d <= 9,
            None => !is_digit(c),
        },
{
    if '0' <= c && c <= '9' {
        Some(c as u64 - '0' as u64)
    } else {
        None
    }
}

proof fn lemma_decimal_value_grows(s: Seq<char>, c: char)
    requires
        is_digit(c),
    ensures
        decimal_value(s.push(c)) >= decimal_value(s),
        decimal_value(s.push(c)) == decimal_value(s) * 10 + digit_value(c),
{
    assert(s.push(c).drop_last() =~= s);
    let v = decimal_value(s);
    assert(v * 10 + digit_value(c) >= v) by (nonlinear_arith);
}

proof fn lemma_parse_stops_at_non_digit(s: Seq<char>, k: int)
    requires
        0 <= k < unsigned_body(s).len(),
        !is_digit(unsigned_body(s)[k]),
    ensures
        parse_u32_spec(s) is None,
{
    let body = unsigned_body(s);
    assert(!(forall|j: int| 0 <= j < body.len() ==> is_digit(body[j])));
}

/// Parses a segment as `u32` the way `str::parse::<u32>` does.
pub fn parse_u32(s: &str) -> (r: Option<u32>)
    ensures
        r == parse_u32_spec(s@),
{
    let n = s.unicode_len();
    let mut start: usize = 0;
    if n > 0 && s.get_char(0) == '+' {
        start = 1;
    }
    let ghost body = unsigned_body(s@);
    assert(body =~= s@.subrange(start as int, n as int));
    if start == n {
        return None;
    }
    let mut value: u64 = 0;
    let mut too_big = false;
    let mut i: usize = start;
    assert(body.take(0) =~= Seq::<char>::empty());
    while i < n
        invariant
            n == s@.len(),
            start <= i <= n,
            body == s@.subrange(start as int, n as int),
            body == unsigned_body(s@),
            forall|j: int| 0 <= j < i - start ==> is_digit(body[j]),
            too_big ==> decimal_value(body.take(i - start)) > u32::MAX,
            !too_big ==> value == decimal_value(body.take(i - start)) && value <= u32::MAX,
        decreases n - i,
    {
        let c = s.get_char(i);
        let ghost k = i - start;
        assert(body[k] == c);
        assert(body.take(k + 1) =~= body.take(k).push(c));
        match digit_of(c) {
            None => {
                assert(!is_digit(body[k]));
                proof {
                    lemma_parse_stops_at_non_digit(s@, k);
                }
                return None;
            },
            Some(d) => {
                proof {
                    lemma_decimal_value_grows(body.take(k), c);
                }
                if !too_big {
                    let next = value * 10 + d;
                    if next > u32::MAX as u64 {
                        too_big = true;
                    } else {
                        value = next;
                    }
                }
            },
        }
        i += 1;
    }
    assert(body.take(n - start) =~= body);
    if too_big {
        None
    } else {
        Some(value as u32)
    }
}

/// The numeric parts of a version string.
pub fn parse_version(s: &str) -> (r: Vec<u32>)
    ensures
        r@ == version_parts(s@),
{
    let segs = split_dots(s);
    let ghost views = segs@.map_values(|x: String| x@);
    let mut parts: Vec<u32> = Vec::new();
    let mut i: usize = 0;
    assert(views.take(0) =~= Seq::<Seq<char>>::empty());
    while i < segs.len()
        invariant
            i <= segs@.len(),
            views == segs@.map_values(|x: String| x@),
            parts@ == parsed_parts(views.take(i as int)),
        decreases segs.len() - i,
    {
        assert(views.take(i + 1).drop_last() =~= views.take(i as int));
        assert(views[i as int] == segs@[i as int]@);
        match parse_u32(segs[i].as_str()) {
            Some(v) => parts.push(v),
            None => {},
        }
        i += 1;
    }
    assert(views.take(segs@.len() as int) =~= views);
    parts
}

/// Whether version `a` comes before version `b`.
pub fn version_less_than(a: &str, b: &str) -> (r: bool)
    ensures
        r == version_before(a@, b@),
{
    let a_parts = parse_version(a);
    let b_parts = parse_version(b);
    let mut i: usize = 0;
    assert(a_parts@.skip(0) =~= a_parts@);
    assert(b_parts@.skip(0) =~= b_parts@);
    while i < a_parts.len() && i < b_parts.len()
        invariant
            i <= a_parts@.len(),
            i <= b_parts@.len(),
            a_parts@ == version_parts(a@),
            b_parts@ == version_parts(b@),
            parts_less(a_parts@, b_parts@) == parts_less(a_parts@.skip(i as int), b_parts@.skip(i as int)),
        decreases a_parts.len() - i,
    {
        let x = a_parts[i];
        let y = b_parts[i];
        assert(a_parts@.skip(i as int)[0] == x);
        assert(b_parts@.skip(i as int)[0] == y);
        if x < y {
            assert(parts_less(a_parts@.skip(i as int), b_parts@.skip(i as int)));
            return true;
        }
        if x > y {
            assert(!parts_less(a_parts@.skip(i as int), b_parts@.skip(i as int)));
            return false;
        }
        assert(a_parts@.skip(i as int).drop_first() =~= a_parts@.skip(i + 1));
        assert(b_parts@.skip(i as int).drop_first() =~= b_parts@.skip(i + 1));
        i += 1;
    }
    a_parts.len() < b_parts.len()
}

// ---------------------------------------------------------------------
// Order laws
// ---------------------------------------------------------------------

/// No version comes before itself.
pub proof fn lemma_parts_less_irreflexive(a: Seq<u32>)
    ensures
        !parts_less(a, a),
    decreases a.len(),
{
    if a.len() > 0 {
        lemma_parts_less_irreflexive(a.drop_first());
    }
}

/// Two versions are never each before the other.
pub proof fn lemma_parts_less_asymmetric(a: Seq<u32>, b: Seq<u32>)
    ensures
        !(parts_less(a, b) && parts_less(b, a)),
    decreases a.len(),
{
    if a.len() > 0 && b.len() > 0 && a[0] == b[0] {
        lemma_parts_less_asymmetric(a.drop_first(), b.drop_first());
    }
}

/// Coming before is transitive.
pub proof fn lemma_parts_less_transitive(a: Seq<u32>, b: Seq<u32>, c: Seq<u32>)
    requires
        parts_less(a, b),
        parts_less(b, c),
    ensures
        parts_less(a, c),
    decreases a.len(),
{
    if a.len() > 0 && b.len() > 0 && c.len() > 0 && a[0] == b[0] && b[0] == c[0] {
        lemma_parts_less_transitive(a.drop_first(), b.drop_first(), c.drop_first());
    }
}

/// Any two versions with different parts are ordered one way or the other.
pub proof fn lemma_parts_less_total(a: Seq<u32>, b: Seq<u32>)
    requires
        a != b,
    ensures
        parts_less(a, b) || parts_less(b, a),
    decreases a.len(),
{
    if a.len() == 0 && b.len() == 0 {
        assert(a =~= b);
    } else if a.len() > 0 && b.len() > 0 && a[0] == b[0] {
        if a.drop_first() =~= b.drop_first() {
            assert forall|j: int| 0 <= j < a.len() implies a[j] == b[j] by {
                if j > 0 {
                    assert(a[j] == a.drop_first()[j - 1]);
                    assert(b[j] == b.drop_first()[j - 1]);
                }
            }
            assert(a =~= b);
        } else {
            lemma_parts_less_total(a.drop_first(), b.drop_first());
        }
    }
}

/// The version order on strings is a strict order: irreflexive,
/// asymmetric and transitive.
pub proof fn lemma_version_order(a: Seq<char>, b: Seq<char>, c: Seq<char>)
    ensures
        !version_before(a, a),
        !(version_before(a, b) && version_before(b, a)),
        version_before(a, b) && version_before(b, c) ==> version_before(a, c),
{
    lemma_parts_less_irreflexive(version_parts(a));
    lemma_parts_less_asymmetric(version_parts(a), version_parts(b));
    if version_before(a, b) && version_before(b, c) {
        lemma_parts_less_transitive(version_parts(a), version_parts(b), version_parts(c));
    }
}

// ---------------------------------------------------------------------
// Migration plan
// ---------------------------------------------------------------------

/// Schema version this library migrates to.
pub const CURRENT_VERSION: &'static str = "2.1.1";

/// One step of the schema migration, in the order steps run.
#[derive(Debug, Clone, Copy, PartialEq, Eq, Structural)]
pub enum MigrationStep {
    /// Create the initial (2.0.4) schema; only for a new database.
    InitialSchema,
    /// rooms.room_type (before 2.0.2).
    AddRoomType,
    /// meter_readings table (before 2.0.4).
    CreateMeterReadings,
    /// rooms.room_type when still missing; checked on every migration.
    EnsureRoomType,
    /// reminders.is_deleted (before 2.0.5).
    AddReminderSoftDelete,
    /// monthly_bills.misc_fee and misc_fee_remark (before 2.0.6).
    AddMiscFee,
    /// Payment QR code configuration entry (before 2.0.7).
    AddPaymentQrConfig,
    /// monthly_bills.repair_fee (before 2.0.8).
    AddRepairFee,
    /// rooms.version for optimistic locking (before 2.0.9).
    AddRoomVersion,
    /// monthly_bills.is_archived and archived_at (before 2.1.0).
    AddBillArchive,
    /// users and permissions tables with default grants (before 2.1.1).
    CreateUsersAndPermissions,
    /// Missing indexes (before 2.1.2).
    AddMissingIndexes,
    /// Collection agent columns, index, settings and grants (before 2.1.3).
    AddCollectionAgent,
    /// Operations assistant settings and summary columns (before 2.1.4).
    AddOperationsAssistant,
}

/// Whether `step` runs when migrating from version `from`.
pub open spec fn step_runs(step: MigrationStep, from: Seq<char>) -> bool {
    match step {
        MigrationStep::InitialSchema => from == "0.0.0"@,
        MigrationStep::AddRoomType => version_before(from, "2.0.2"@),
        MigrationStep::CreateMeterReadings => version_before(from, "2.0.4"@),
        MigrationStep::EnsureRoomType => true,
        MigrationStep::AddReminderSoftDelete => version_before(from, "2.0.5"@),
        MigrationStep::AddMiscFee => version_before(from, "2.0.6"@),
        MigrationStep::AddPaymentQrConfig => version_before(from, "2.0.7"@),
        MigrationStep::AddRepairFee => version_before(from, "2.0.8"@),
        MigrationStep::AddRoomVersion => version_before(from, "2.0.9"@),
        MigrationStep::AddBillArchive => version_before(from, "2.1.0"@),
        MigrationStep::CreateUsersAndPermissions => version_before(from, "2.1.1"@),
        MigrationStep::AddMissingIndexes => version_before(from, "2.1.2"@),
        MigrationStep::AddCollectionAgent => version_before(from, "2.1.3"@),
        MigrationStep::AddOperationsAssistant => version_before(from, "2.1.4"@),
    }
}

/// Every step in running order; the last two only in the extended schema.
pub open spec fn all_steps(extended: bool) -> Seq<MigrationStep> {
    seq![
        MigrationStep::InitialSchema,
        MigrationStep::AddRoomType,
        MigrationStep::CreateMeterReadings,
        MigrationStep::EnsureRoomType,
        MigrationStep::AddReminderSoftDelete,
        MigrationStep::AddMiscFee,
        MigrationStep::AddPaymentQrConfig,
        MigrationStep::AddRepairFee,
        MigrationStep::AddRoomVersion,
        MigrationStep::AddBillArchive,
        MigrationStep::CreateUsersAndPermissions,
        MigrationStep::AddMissingIndexes,
    ] + if extended {
        seq![MigrationStep::AddCollectionAgent, MigrationStep::AddOperationsAssistant]
    } else {
        Seq::empty()
    }
}

/// The steps of `steps` that run from version `from`, in order.
pub open spec fn running_steps(steps: Seq<MigrationStep>, from: Seq<char>) -> Seq<MigrationStep>
    decreases steps.len(),
{
    if steps.len() == 0 {
        Seq::empty()
    } else {
        let prev = running_steps(steps.drop_last(), from);
        if step_runs(steps.last(), from) {
            prev.push(steps.last())
        } else {
            prev
        }
    }
}

/// The incremental migration from `from`, in running order.
pub open spec fn incremental_plan(from: Seq<char>, extended: bool) -> Seq<MigrationStep> {
    running_steps(all_steps(extended), from)
}

fn step_runs_exec(step: MigrationStep, from: &str) -> (r: bool)
    ensures
        r == step_runs(step, from@),
{
    match step {
        MigrationStep::InitialSchema => str_eq(from, "0.0.0"),
        MigrationStep::AddRoomType => version_less_than(from, "2.0.2"),
        MigrationStep::CreateMeterReadings => version_less_than(from, "2.0.4"),
        MigrationStep::EnsureRoomType => true,
        MigrationStep::AddReminderSoftDelete => version_less_than(from, "2.0.5"),
        MigrationStep::AddMiscFee => version_less_than(from, "2.0.6"),
        MigrationStep::AddPaymentQrConfig => version_less_than(from, "2.0.7"),
        MigrationStep::AddRepairFee => version_less_than(from, "2.0.8"),
        MigrationStep::AddRoomVersion => version_less_than(from, "2.0.9"),
        MigrationStep::AddBillArchive => version_less_than(from, "2.1.0"),
        MigrationStep::CreateUsersAndPermissions => version_less_than(from, "2.1.1"),
        MigrationStep::AddMissingIndexes => version_less_than(from, "2.1.2"),
        MigrationStep::AddCollectionAgent => version_less_than(from, "2.1.3"),
        MigrationStep::AddOperationsAssistant => version_less_than(from, "2.1.4"),
    }
}

fn all_steps_exec(extended: bool) -> (r: Vec<MigrationStep>)
    ensures
        r@ == all_steps(extended),
{
    let mut v: Vec<MigrationStep> = Vec::new();
    v.push(MigrationStep::InitialSchema);
    v.push(MigrationStep::AddRoomType);
    v.push(MigrationStep::CreateMeterReadings);
    v.push(MigrationStep::EnsureRoomType);
    v.push(MigrationStep::AddReminderSoftDelete);
    v.push(MigrationStep::AddMiscFee);
    v.push(MigrationStep::AddPaymentQrConfig);
    v.push(MigrationStep::AddRepairFee);
    v.push(MigrationStep::AddRoomVersion);
    v.push(MigrationStep::AddBillArchive);
    v.push(MigrationStep::CreateUsersAndPermissions);
    v.push(MigrationStep::AddMissingIndexes);
    if extended {
        v.push(MigrationStep::AddCollectionAgent);
        v.push(MigrationStep::AddOperationsAssistant);
    }
    assert(v@ =~= all_steps(extended));
    v
}

/// The incremental migration steps to run from version `from`, in order;
/// `extended` adds the collection-agent and operations-assistant steps.
pub fn run_incremental_migrations(from_version: &str, extended: bool) -> (r: Vec<MigrationStep>)
    ensures
        r@ == incremental_plan(from_version@, extended),
{
    let all = all_steps_exec(extended);
    let mut plan: Vec<MigrationStep> = Vec::new();
    let mut i: usize = 0;
    assert(all@.take(0) =~= Seq::<MigrationStep>::empty());
    while i < all.len()
        invariant
            i <= all@.len(),
            all@ == all_steps(extended),
            plan@ == running_steps(all@.take(i as int), from_version@),
        decreases all.len() - i,
    {
        assert(all@.take(i + 1).drop_last() =~= all@.take(i as int));
        let step = all[i];
        if step_runs_exec(step, from_version) {
            plan.push(step);
        }
        i += 1;
    }
    assert(all@.take(all@.len() as int) =~= all@);
    plan
}

/// What migrating a database at a given schema version involves.
#[derive(Debug, Clone)]
pub enum MigrationPlan {
    /// Already at the target version.
    UpToDate,
    /// The database is newer than the target; nothing may be done.
    NewerThanTarget,
    /// Run `steps` in order, then check the misc-fee and repair-fee columns
    /// where asked, then record the target version.
    Upgrade { steps: Vec<MigrationStep>, check_misc_fee: bool, check_repair_fee: bool },
}

/// Whether the misc-fee column must be checked after migrating from `from`.
pub open spec fn needs_misc_fee_check(from: Seq<char>) -> bool {
    from != "0.0.0"@ && version_before(from, "2.0.6"@)
}

/// Whether the repair-fee column must be checked after migrating from `from`.
pub open spec fn needs_repair_fee_check(from: Seq<char>) -> bool {
    from != "0.0.0"@ && version_before(from, "2.0.8"@)
}

/// The migration plan from `current` to `target`.
pub open spec fn migration_plan_for(current: Seq<char>, target: Seq<char>, extended: bool, plan: MigrationPlan) -> bool {
    if current == target {
        plan is UpToDate
    } else if !version_before(current, target) {
        plan is NewerThanTarget
    } else {
        plan matches MigrationPlan::Upgrade { steps, check_misc_fee, check_repair_fee }
            && steps@ == incremental_plan(current, extended)
            && check_misc_fee == needs_misc_fee_check(current)
            && check_repair_fee == needs_repair_fee_check(current)
    }
}

/// Plans the migration of a database at `current_version` towards `target`.
pub fn plan_migrations_to(current_version: &str, target: &str, extended: bool) -> (r: MigrationPlan)
    ensures
        migration_plan_for(current_version@, target@, extended, r),
{
    if str_eq(current_version, target) {
        return MigrationPlan::UpToDate;
    }
    if !version_less_than(current_version, target) {
        return MigrationPlan::NewerThanTarget;
    }
    let steps = run_incremental_migrations(current_version, extended);
    let check_misc_fee = !str_eq(current_version, "0.0.0") && version_less_than(current_version, "2.0.6");
    let check_repair_fee = !str_eq(current_version, "0.0.0") && version_less_than(current_version, "2.0.8");
    MigrationPlan::Upgrade { steps, check_misc_fee, check_repair_fee }
}

/// Plans the migration of a database at `current_version` to
/// `CURRENT_VERSION`.
pub fn run_migrations(current_version: &str) -> (r: MigrationPlan)
    ensures
        migration_plan_for(current_version@, CURRENT_VERSION@, false, r),
{
    plan_migrations_to(current_version, CURRENT_VERSION, false)
}

proof fn lemma_running_steps_contains(steps: Seq<MigrationStep>, from: Seq<char>, s: MigrationStep)
    ensures
        running_steps(steps, from).contains(s) <==> (steps.contains(s) && step_runs(s, from)),
    decreases steps.len(),
{
    if steps.len() > 0 {
        lemma_running_steps_contains(steps.drop_last(), from, s);
        let prev = running_steps(steps.drop_last(), from);
        assert(steps =~= steps.drop_last().push(steps.last()));
        if step_runs(steps.last(), from) {
            assert(prev.push(steps.last()).contains(s) <==> (prev.contains(s) || s == steps.last())) by {
                if prev.push(steps.last()).contains(s) {
                    let k = choose|k: int| 0 <= k < prev.push(steps.last()).len() && prev.push(steps.last())[k] == s;
                    if k < prev.len() {
                        assert(prev[k] == s);
                    }
                }
                if prev.contains(s) {
                    let k = choose|k: int| 0 <= k < prev.len() && prev[k] == s;
                    assert(prev.push(steps.last())[k] == s);
                }
                if s == steps.last() {
                    assert(prev.push(steps.last())[prev.len() as int] == s);
                }
            }
        }
        assert(steps.contains(s) <==> (steps.drop_last().contains(s) || s == steps.last())) by {
            if steps.contains(s) {
                let k = choose|k: int| 0 <= k < steps.len() && steps[k] == s;
                if k < steps.len() - 1 {
                    assert(steps.drop_last()[k] == s);
                }
            }
            if steps.drop_last().contains(s) {
                let k = choose|k: int| 0 <= k < steps.drop_last().len() && steps.drop_last()[k] == s;
                assert(steps[k] == s);
            }
            if s == steps.last() {
                assert(steps[steps.len() - 1] == s);
            }
        }
    }
}

/// Migrating from a later version never runs a step that migrating from an
/// earlier version skips: each step runs from every version before its
/// threshold.  (The initial-schema step runs only for "0.0.0" itself, so the
/// later version is not "0.0.0".)
pub proof fn lemma_later_version_runs_fewer_steps(
    a: Seq<char>,
    b: Seq<char>,
    extended: bool,
    s: MigrationStep,
)
    requires
        version_before(a, b),
        b != "0.0.0"@,
    ensures
        incremental_plan(b, extended).contains(s) ==> incremental_plan(a, extended).contains(s),
{
    lemma_running_steps_contains(all_steps(extended), b, s);
    lemma_running_steps_contains(all_steps(extended), a, s);
    if step_runs(s, b) && s != MigrationStep::EnsureRoomType && s != MigrationStep::InitialSchema {
        let t = match s {
            MigrationStep::AddRoomType => "2.0.2"@,
            MigrationStep::CreateMeterReadings => "2.0.4"@,
            MigrationStep::AddReminderSoftDelete => "2.0.5"@,
            MigrationStep::AddMiscFee => "2.0.6"@,
            MigrationStep::AddPaymentQrConfig => "2.0.7"@,
            MigrationStep::AddRepairFee => "2.0.8"@,
            MigrationStep::AddRoomVersion => "2.0.9"@,
            MigrationStep::AddBillArchive => "2.1.0"@,
            MigrationStep::CreateUsersAndPermissions => "2.1.1"@,
            MigrationStep::AddMissingIndexes => "2.1.2"@,
            MigrationStep::AddCollectionAgent => "2.1.3"@,
            _ => "2.1.4"@,
        };
        assert(version_before(b, t));
        lemma_version_order(a, b, t);
    }
}

/// A database already at the target version is left alone, and one newer
/// than the target is never migrated.
pub proof fn lemma_no_migration_at_or_past_target(
    current: Seq<char>,
    target: Seq<char>,
    extended: bool,
    plan: MigrationPlan,
)
    requires
        migration_plan_for(current, target, extended, plan),
        current == target || version_before(target, current),
    ensures
        !(plan is Upgrade),
{
    lemma_version_order(current, target, current);
}


// ---------------------------------------------------------------------
// Schema inspection
// ---------------------------------------------------------------------

/// The recorded schema version: the latest recorded version, or "0.0.0"
/// when the version table is missing or records none.
pub fn get_schema_version(table_exists: bool, latest: Option<String>) -> (r: String)
    ensures
        r@ == (if table_exists && latest is Some { latest->0@ } else { "0.0.0"@ }),
{
    if !table_exists {
        return String::from_str("0.0.0");
    }
    match latest {
        Some(v) => v,
        None => String::from_str("0.0.0"),
    }
}

/// Whether a table has a column named `col_name` (exact name), given the
/// names of its columns.
pub fn has_column(column_names: &Vec<String>, col_name: &str) -> (r: bool)
    ensures
        r <==> exists|i: int| 0 <= i < column_names@.len() && #[trigger] column_names@[i]@ == col_name@,
{
    let mut i: usize = 0;
    while i < column_names.len()
        invariant
            i <= column_names@.len(),
            forall|j: int| 0 <= j < i ==> #[trigger] column_names@[j]@ != col_name@,
        decreases column_names.len() - i,
    {
        if str_eq(column_names[i].as_str(), col_name) {
            return true;
        }
        i += 1;
    }
    false
}

/// The statement adding a column to a table, unless the table already has
/// a column of that name (`None`).
pub fn add_column_if_not_exists(
    column_names: &Vec<String>,
    table: &str,
    col_def: &str,
    col_name: &str,
) -> (r: Option<String>)
    ensures
        (exists|i: int| 0 <= i < column_names@.len() && #[trigger] column_names@[i]@ == col_name@) ==> r is None,
        !(exists|i: int| 0 <= i < column_names@.len() && #[trigger] column_names@[i]@ == col_name@) ==> (r matches Some(
            sql,
        ) && sql@ == "ALTER TABLE "@ + table@ + " ADD COLUMN "@ + col_def@),
{
    if has_column(column_names, col_name) {
        return None;
    }
    let mut sql = String::from_str("ALTER TABLE ");
    sql.append(table);
    sql.append(" ADD COLUMN ");
    sql.append(col_def);
    Some(sql)
}

} // verus!
