//! Files, journals and documentation that the options ask for.
use crate::application::IpoptApplication;
use crate::laws::given::answer_given;
use crate::laws::given::integer_given;
use crate::laws::given::integer_or_else;
use crate::laws::given::lemma_yes_is_not_no;
use crate::laws::given::stands_at;
use crate::laws::given::text_given;
use crate::options::Held;
use crate::requests::DocumentationRequest;
use crate::requests::JournalRequest;
use crate::requests::OptionFileLoad;
use crate::statistics::SolveStatistics;
use crate::status::journal_level_from_int;
use crate::status::JournalLevel;
use vstd::prelude::*;

verus! {

/// The options file: a named one must be there; of the two default names the own
/// one is read first; a note is made only where both are there.
pub proof fn law_option_file_is_chosen(
    a: &mut IpoptApplication,
    path: &str,
    named: bool,
    own: bool,
    shared: bool,
    r: Result<OptionFileLoad, String>,
    b: &mut IpoptApplication,
    q: Result<OptionFileLoad, String>,
)
    requires
        call_ensures(IpoptApplication::choose_option_file, (a, Some(path), named, own, shared), r),
        call_ensures(
            IpoptApplication::choose_option_file,
            (b, None::<&str>, named, own, shared),
            q,
        ),
    ensures
        r is Ok <==> named,
        r matches Ok(l) ==> l.explicit && (l.path matches Some(p) && p@ == path@)
            && l.warnings@.len() == 0,
        q is Ok,
        q matches Ok(l) ==> {
            &&& !l.explicit
            &&& own ==> (l.path matches Some(p) && p@ == "pounce.opt"@)
            &&& !own && shared ==> (l.path matches Some(p) && p@ == "ipopt.opt"@)
            &&& !own && !shared ==> l.path is None
            &&& l.warnings@.len() == (if own && shared {
                1int
            } else {
                0int
            })
        },
        final(a).option_file_resolved,
        final(a).options == old(a).options,
        final(b).option_file_resolved,
{
}

/// A file that names another one gets a note; one that names itself, or nothing,
/// gets none.
pub proof fn law_chained_file_is_noted(
    a: IpoptApplication,
    l: &mut OptionFileLoad,
    itself: bool,
)
    requires
        call_ensures(IpoptApplication::note_chained_option_file, (&a, l, itself), ()),
    ensures
        final(l).path == old(l).path,
        final(l).explicit == old(l).explicit,
        itself ==> final(l).warnings@ == old(l).warnings@,
        old(l).path is None ==> final(l).warnings@ == old(l).warnings@,
        text_given(a.options@, "option_file_name"@) is None ==> final(l).warnings@
            == old(l).warnings@,
        old(l).path is Some && !itself && (text_given(
            a.options@,
            "option_file_name"@,
        ) matches Some(t) && t.len() > 0) ==> final(l).warnings@.len() == old(l).warnings@.len()
            + 1,
{
}

/// An output file is attached where the caller named one, under its name, at the
/// caller's level, or 5, and at its end where the caller said so.
pub proof fn law_output_file(a: IpoptApplication, r: Option<JournalRequest>, level: JournalLevel)
    requires
        call_ensures(IpoptApplication::output_file_journal, (&a,), r),
        call_ensures(
            journal_level_from_int,
            (integer_or_else(integer_given(a.options@, "file_print_level"@), 5),),
            level,
        ),
    ensures
        r is Some <==> (text_given(a.options@, "output_file"@) matches Some(t) && t.len() > 0),
        r matches Some(j) ==> text_given(a.options@, "output_file"@) == Some(j.file@) && j.name@
            == "OutputFile:"@ + j.file@ && j.level == level && (j.append <==> answer_given(
            a.options@,
            "file_append"@,
        ) == Some(true)),
{
    lemma_yes_is_not_no();
}

/// Opening an output file sets its name and level, as far as they are accepted,
/// and attaches it where both are.
pub proof fn law_opened_file(
    a: &mut IpoptApplication,
    name: &str,
    level: i32,
    named: bool,
    leveled: bool,
    r: Option<JournalRequest>,
    kept: JournalLevel,
    other: Seq<char>,
)
    requires
        call_ensures(IpoptApplication::open_output_file, (a, name, level, named, leveled), r),
        call_ensures(journal_level_from_int, (level,), kept),
        other != "output_file"@,
        other != "file_print_level"@,
    ensures
        r is Some <==> named && leveled,
        r matches Some(j) ==> j.file@ == name@ && j.level == kept && !j.append,
        !named ==> final(a).options@ == old(a).options@,
        named ==> text_given(final(a).options@, "output_file"@) == Some(name@),
        named && leveled ==> integer_given(final(a).options@, "file_print_level"@) == Some(level),
        named && !leveled ==> stands_at(final(a).options@, "file_print_level"@) == stands_at(
            old(a).options@,
            "file_print_level"@,
        ),
        stands_at(final(a).options@, other) == stands_at(old(a).options@, other),
{
    reveal_strlit("output_file");
    reveal_strlit("file_print_level");
    assert("output_file"@.len() == 11);
    assert("file_print_level"@.len() == 16);
}

/// Journal levels rise with their integers, and are held to the known range.
pub proof fn law_journal_levels(v: i32, r: JournalLevel)
    requires
        call_ensures(journal_level_from_int, (v,), r),
    ensures
        v <= 0 <==> r == JournalLevel::J_NONE,
        v == 1 <==> r == JournalLevel::J_ERROR,
        v == 2 <==> r == JournalLevel::J_STRONGWARNING,
        v == 3 <==> r == JournalLevel::J_SUMMARY,
        v == 4 <==> r == JournalLevel::J_WARNING,
        v == 5 <==> r == JournalLevel::J_ITERSUMMARY,
        v == 6 <==> r == JournalLevel::J_DETAILED,
        v == 7 <==> r == JournalLevel::J_MOREDETAILED,
        v == 8 <==> r == JournalLevel::J_VECTOR,
        v == 9 <==> r == JournalLevel::J_MOREVECTOR,
        v == 10 <==> r == JournalLevel::J_MATRIX,
        v == 11 <==> r == JournalLevel::J_MOREMATRIX,
        v >= 12 <==> r == JournalLevel::J_ALL,
{
}

/// Documentation is printed where the caller said yes, in the mode that the option
/// stands at.
pub proof fn law_documentation(a: IpoptApplication, r: Option<DocumentationRequest>)
    requires
        call_ensures(IpoptApplication::documentation_request, (&a,), r),
    ensures
        r is Some <==> answer_given(a.options@, "print_options_documentation"@) == Some(true),
        r matches Some(d) ==> (d.advanced <==> stands_at(a.options@, "print_advanced_options"@)
            == Some(Held::Text("yes"@))),
        r matches Some(d) ==> (d.mode matches Some(m) ==> stands_at(
            a.options@,
            "print_options_mode"@,
        ) == Some(Held::Text(m@))),
        r matches Some(d) ==> (d.mode is None ==> !(stands_at(
            a.options@,
            "print_options_mode"@,
        ) matches Some(Held::Text(_)))),
{
    lemma_yes_is_not_no();
}

/// A fresh application has nothing set, no answer and nothing installed; three
/// options stand at registered defaults.
pub proof fn law_fresh_application(a: IpoptApplication, name: Seq<char>)
    requires
        call_ensures(IpoptApplication::new, (), a),
    ensures
        text_given(a.options@, name) is None,
        integer_given(a.options@, name) is None,
        stands_at(a.options@, "linear_solver"@) == Some(Held::Text("feral"@)),
        stands_at(a.options@, "feral_refine"@) == Some(Held::Text("yes"@)),
        stands_at(a.options@, "option_file_name"@) == Some(Held::Text("ipopt.opt"@)),
        a.statistics.iteration_count == 0,
        a.statistics.final_objective.nan(),
        a.statistics.final_kkt_error.nan(),
        a.statistics.final_unscaled_kkt_error.nan(),
        a.statistics.final_constr_viol.nan(),
        a.statistics.final_unscaled_constr_viol.nan(),
        a.statistics.iterations is None,
        a.last_finalize is None,
        a.crossover_report is None,
        a.sqp_last_working_set is None,
        a.warm_start_iterate is None,
        a.kkt_schur_block is None,
        a.external_ordering is None,
        !a.convex_routing_available,
        !a.record_iter_history,
        !a.ma57_available,
{
    reveal_strlit("linear_solver");
    reveal_strlit("feral_refine");
    reveal_strlit("option_file_name");
    assert("linear_solver"@.len() == 13);
    assert("feral_refine"@.len() == 12);
    assert("option_file_name"@.len() == 16);
}

/// What an application tells of itself is what it holds.
pub proof fn law_told(
    a: IpoptApplication,
    s: SolveStatistics,
    restored: bool,
    b: &mut IpoptApplication,
    c: &mut IpoptApplication,
    available: bool,
    d: &mut IpoptApplication,
    applied: bool,
)
    requires
        call_ensures(IpoptApplication::statistics, (&a,), s),
        call_ensures(IpoptApplication::answer_restored_from_floor, (&a,), restored),
        call_ensures(IpoptApplication::enable_iter_history, (b,), ()),
        call_ensures(IpoptApplication::set_convex_routing_available, (c, available), ()),
        call_ensures(IpoptApplication::set_presolve_already_applied, (d, applied), ()),
    ensures
        s.final_objective == a.statistics.final_objective,
        s.final_kkt_error == a.statistics.final_kkt_error,
        s.final_unscaled_kkt_error == a.statistics.final_unscaled_kkt_error,
        s.final_constr_viol == a.statistics.final_constr_viol,
        s.iteration_count == a.statistics.iteration_count,
        s.iterations is Some <==> a.statistics.iterations is Some,
        s.iterations matches Some(v) ==> v@ == a.statistics.iterations->0@,
        restored == a.answer_restored_from_floor,
        final(b).record_iter_history,
        final(b).options == old(b).options,
        final(c).convex_routing_available == available,
        final(d).presolve_already_applied == applied,
{
}

/// Backend warnings are handed out once.
pub proof fn law_warnings_come_once(a: &mut IpoptApplication, w: Vec<String>, r: Vec<String>)
    requires
        call_ensures(IpoptApplication::take_unimplemented_backend_warnings, (a, w), r),
    ensures
        old(a).backend_warnings_emitted ==> r@.len() == 0,
        !old(a).backend_warnings_emitted ==> r == w,
        final(a).backend_warnings_emitted,
{
}

} // verus!
