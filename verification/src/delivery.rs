//! Delivery of an attempt in a project with a deadline: whether the deadline
//! has passed, and what choosing an attempt in the history does.

use vstd::prelude::*;
use vstd::string::*;
use crate::text::{agree_before, lex_less, str_less};
use crate::numeral::{dec_nat, fmt_u64_padded, zero_padded};

verus! {

/// Today's date as the history compares it with deadlines:
/// `format!("{:04}-{:02}-{:02}", year, month0 + 1, day)`, where `month0` counts
/// months from zero as JavaScript's `Date` does.
pub fn today_text(year: u32, month0: u32, day: u32) -> (r: String)
    requires
        month0 < u32::MAX,
    ensures
        r@ == zero_padded(dec_nat(year as nat), 4) + "-"@ + zero_padded(dec_nat((month0 + 1) as nat), 2)
            + "-"@ + zero_padded(dec_nat(day as nat), 2),
{
    let mut r = fmt_u64_padded(year as u64, 4);
    r.append("-");
    let m = fmt_u64_padded((month0 + 1) as u64, 2);
    r.append(m.as_str());
    r.append("-");
    let d = fmt_u64_padded(day as u64, 2);
    r.append(d.as_str());
    r
}

/// The deadline of a project with deliveries has passed when today's date
/// comes after it in text order; a project without deliveries, or without a
/// deadline, never expires.
pub open spec fn delivery_expired(exam_mode: bool, due_date: Option<Seq<char>>, today: Seq<char>) -> bool {
    exam_mode && match due_date {
        Some(due) => lex_less(due, today),
        None => false,
    }
}

/// Whether the deadline has passed.
pub fn is_delivery_expired(exam_mode: bool, due_date: Option<&str>, today: &str) -> (b: bool)
    ensures
        b == delivery_expired(
            exam_mode,
            match due_date {
                Some(d) => Some(d@),
                None => None,
            },
            today@,
        ),
{
    if exam_mode {
        match due_date {
            Some(due) => str_less(due, today),
            None => false,
        }
    } else {
        false
    }
}

/// The deadline has not passed on the deadline's own day.
pub proof fn lemma_not_expired_on_due_date(due: Seq<char>)
    ensures
        !delivery_expired(true, Some(due), due),
{
    crate::text::lemma_lex_less_irreflexive(due);
}

/// Once the deadline has passed it stays passed: if it has passed on `today`,
/// it has passed on every date that comes after `today`.
pub proof fn lemma_expiry_is_monotone(due: Seq<char>, today: Seq<char>, later: Seq<char>)
    requires
        delivery_expired(true, Some(due), today),
        lex_less(today, later),
    ensures
        delivery_expired(true, Some(due), later),
{
    crate::text::lemma_lex_less_transitive(due, today, later);
}

/// For a deadline and a date written with the same number of characters (as
/// "YYYY-MM-DD" both are), the deadline of a project with deliveries has
/// passed exactly when, at the first character where the two differ, today's
/// is the greater; a project without deliveries never expires.
pub proof fn lemma_expiry_first_difference(due: Seq<char>, today: Seq<char>)
    requires
        due.len() == today.len(),
    ensures
        delivery_expired(true, Some(due), today) <==> exists|k: int|
            #[trigger] agree_before(due, today, k) && (due[k] as u32) < (today[k] as u32),
        !delivery_expired(false, Some(due), today),
        !delivery_expired(true, None, today),
{
    crate::text::lemma_lex_less_first_difference(due, today);
}

/// An attempt of the history as delivery sees it: its id and whether it is
/// the delivered one.
#[derive(Clone, Copy, Debug, PartialEq, Eq, Structural)]
pub struct DeliveryMark {
    pub id: i64,
    pub selected: bool,
}

/// Whether the first attempt with `id` is marked as delivered.
pub open spec fn marked(marks: Seq<DeliveryMark>, id: i64) -> bool
    decreases marks.len(),
{
    if marks.len() == 0 {
        false
    } else if marks[0].id == id {
        marks[0].selected
    } else {
        marked(marks.drop_first(), id)
    }
}

/// The marks after choosing `id`: only attempts with that id may stay or
/// become delivered, and they become delivered unless it already was.
pub open spec fn marks_after(marks: Seq<DeliveryMark>, id: i64, was: bool) -> Seq<DeliveryMark> {
    Seq::new(marks.len(), |i: int| DeliveryMark { id: marks[i].id, selected: marks[i].id == id && !was })
}

/// What choosing an attempt for delivery does.
#[derive(Clone, Debug, PartialEq, Eq)]
pub enum DeliveryOutcome {
    /// The deadline has passed and the attempt is not the delivered one:
    /// nothing changes and the user is told so.
    Expired,
    /// The history's new marks, and the attempt to report to the server
    /// (`None` withdraws the delivery).
    Chosen { marks: Vec<DeliveryMark>, delivered: Option<i64> },
}

/// The message when the deadline has passed.
pub fn expired_message() -> (r: String)
    ensures
        r@ == "Error: El plazo de entrega para este proyecto ha expirado."@,
{
    String::from_str("Error: El plazo de entrega para este proyecto ha expirado.")
}

fn first_mark(marks: &Vec<DeliveryMark>, id: i64) -> (b: bool)
    ensures
        b == marked(marks@, id),
{
    let mut i: usize = 0;
    assert(marks@.skip(0) =~= marks@);
    while i < marks.len()
        invariant
            i <= marks@.len(),
            marked(marks@, id) == marked(marks@.skip(i as int), id),
        decreases marks@.len() - i,
    {
        proof {
            assert(marks@.skip(i as int).drop_first() =~= marks@.skip(i + 1));
            assert(marks@.skip(i as int)[0] == marks@[i as int]);
        }
        if marks[i].id == id {
            return marks[i].selected;
        }
        i = i + 1;
    }
    proof {
        assert(marks@.skip(i as int).len() == 0);
    }
    false
}

/// Choosing the attempt `sim_id` of the history. `row_selected` is whether
/// its row shows it as delivered and `expired` whether the deadline passed.
pub fn toggle_delivery(marks: &Vec<DeliveryMark>, sim_id: i64, row_selected: bool, expired: bool) -> (r: DeliveryOutcome)
    ensures
        expired && !row_selected ==> r == DeliveryOutcome::Expired,
        !(expired && !row_selected) ==> (r matches DeliveryOutcome::Chosen { marks: m, delivered }
            && m@ == marks_after(marks@, sim_id, marked(marks@, sim_id)) && delivered == (if marked(
            marks@,
            sim_id,
        ) {
            None
        } else {
            Some(sim_id)
        })),
{
    if expired && !row_selected {
        return DeliveryOutcome::Expired;
    }
    proof {
        assert(marks@.skip(0) =~= marks@);
    }
    let was = first_mark(marks, sim_id);
    let mut out: Vec<DeliveryMark> = Vec::new();
    let mut i: usize = 0;
    while i < marks.len()
        invariant
            i <= marks@.len(),
            out@ =~= marks_after(marks@, sim_id, was).take(i as int),
        decreases marks@.len() - i,
    {
        let m = marks[i];
        out.push(DeliveryMark { id: m.id, selected: m.id == sim_id && !was });
        i = i + 1;
    }
    assert(out@ =~= marks_after(marks@, sim_id, was));
    DeliveryOutcome::Chosen { marks: out, delivered: if was { None } else { Some(sim_id) } }
}

/// After choosing an attempt, no attempt with another id is delivered; with
/// distinct ids at most one attempt is.
pub proof fn lemma_at_most_chosen_delivered(marks: Seq<DeliveryMark>, id: i64, was: bool)
    ensures
        forall|i: int|
            0 <= i < marks.len() && (#[trigger] marks_after(marks, id, was)[i]).selected ==> marks[i].id
                == id,
        forall|i: int, j: int|
            0 <= i < marks.len() && 0 <= j < marks.len() && (#[trigger] marks_after(marks, id, was)[i]).selected
                && (#[trigger] marks_after(marks, id, was)[j]).selected && marks[i].id != marks[j].id
                ==> false,
{
}

proof fn lemma_marked_after(marks: Seq<DeliveryMark>, id: i64, was: bool)
    requires
        exists|i: int| 0 <= i < marks.len() && marks[i].id == id,
    ensures
        marked(marks_after(marks, id, was), id) == !was,
    decreases marks.len(),
{
    let after = marks_after(marks, id, was);
    if marks[0].id != id {
        let k = choose|i: int| 0 <= i < marks.len() && marks[i].id == id;
        assert(k > 0);
        assert(marks.drop_first()[k - 1].id == id);
        lemma_marked_after(marks.drop_first(), id, was);
        assert(after.drop_first() =~= marks_after(marks.drop_first(), id, was));
    }
}

/// Choosing an attempt that is not delivered delivers it; choosing it again
/// withdraws the delivery and leaves no attempt delivered.
pub proof fn lemma_choose_twice_withdraws(marks: Seq<DeliveryMark>, id: i64)
    requires
        exists|i: int| 0 <= i < marks.len() && marks[i].id == id,
        !marked(marks, id),
    ensures
        ({
            let once = marks_after(marks, id, marked(marks, id));
            let twice = marks_after(once, id, marked(once, id));
            &&& marked(once, id)
            &&& forall|i: int| 0 <= i < twice.len() ==> !(#[trigger] twice[i]).selected
            &&& twice.len() == marks.len()
        }),
{
    lemma_marked_after(marks, id, false);
}

/// Label of the delivery button.
pub fn delivery_label(selected: bool, expired: bool) -> (r: &'static str)
    ensures
        selected ==> r@ == "ENTREGADO"@,
        !selected && expired ==> r@ == "PLAZO VENCIDO"@,
        !selected && !expired ==> r@ == "ENTREGAR"@,
{
    if selected {
        "ENTREGADO"
    } else if expired {
        "PLAZO VENCIDO"
    } else {
        "ENTREGAR"
    }
}

/// Classes of the delivery button: highlighted once delivered, faded after
/// the deadline, plain otherwise.
pub fn delivery_button_class(selected: bool, expired: bool) -> (r: &'static str)
    ensures
        selected ==> r@ == "flex items-center justify-center gap-2 w-full h-[28px] rounded text-xs font-bold transition-all bg-cyan-200 text-black hover:bg-cyan-300 shadow-lg shadow-cyan-500/10 border border-transparent shrink-0"@,
        !selected && expired ==> r@ == "flex items-center justify-center gap-2 w-full h-[28px] rounded text-xs font-bold transition-all bg-zinc-800/30 text-red-400/40 border border-red-500/10 cursor-not-allowed shrink-0 select-none"@,
        !selected && !expired ==> r@ == "flex items-center justify-center gap-2 w-full h-[28px] rounded text-xs font-bold transition-all bg-zinc-800 text-white/50 border border-white/5 hover:bg-zinc-700/50 hover:text-white shrink-0"@,
{
    if selected {
        "flex items-center justify-center gap-2 w-full h-[28px] rounded text-xs font-bold transition-all bg-cyan-200 text-black hover:bg-cyan-300 shadow-lg shadow-cyan-500/10 border border-transparent shrink-0"
    } else if expired {
        "flex items-center justify-center gap-2 w-full h-[28px] rounded text-xs font-bold transition-all bg-zinc-800/30 text-red-400/40 border border-red-500/10 cursor-not-allowed shrink-0 select-none"
    } else {
        "flex items-center justify-center gap-2 w-full h-[28px] rounded text-xs font-bold transition-all bg-zinc-800 text-white/50 border border-white/5 hover:bg-zinc-700/50 hover:text-white shrink-0"
    }
}

/// The expanded row of the history after a click on the row of `sim_id`
/// (`-1` when none is): a click on the expanded row folds it, a click on
/// another row expands that one.
pub fn toggle_expanded(expanded: i64, sim_id: i64) -> (r: i64)
    ensures
        r == (if expanded == sim_id { -1i64 } else { sim_id }),
{
    if expanded == sim_id { -1 } else { sim_id }
}

} // verus!
