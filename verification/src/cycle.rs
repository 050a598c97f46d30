//! The registration cycle as a state machine.
//!
//! One cycle registers one alias: it walks a fixed line of steps, each of
//! which is the precondition of the next. The caller performs the page
//! work of the current step (every lookup there is a blocking query against
//! the live page) and reports back whether it succeeded; a missing element
//! or a timeout is a structural failure that ends the cycle at once —
//! nothing at this level retries.
//!
//! Two steps are decided here rather than on the page: `BaselineCapture`
//! refreshes the mailbox watermark, and it stands strictly before `Submit`
//! — capturing the baseline after submission could miss a verification
//! mail that arrives faster than the code runs. `CodeWait` runs the
//! bounded poll loop of [`crate::tracker::WatermarkTracker::wait_for_code`].

use vstd::prelude::*;

use crate::bytes::bytes_eq;
use crate::errors::CycleError;

verus! {

/// The steps of one registration cycle, in the order they run.
#[derive(Clone, Copy, PartialEq, Eq, Structural, Debug)]
pub enum CycleStep {
    /// Navigate to the service's home page.
    Landing,
    /// If a prior session is still logged in, log out and let the page
    /// settle; otherwise pass straight through.
    SessionReset,
    /// Open the login modal, then the registration modal.
    FormOpen,
    /// Fill email, password twice, and the terms checkbox.
    FormFill,
    /// Refresh the mailbox watermark — before submitting.
    BaselineCapture,
    /// Submit the registration form.
    Submit,
    /// Poll the mailbox for the verification code.
    CodeWait,
    /// Enter and submit the code.
    CodeSubmit,
    /// Acknowledge success and log in with the new credentials.
    PostRegisterLogin,
    /// Scroll the target into view and activate its control.
    PostLoginAction,
    /// Terminal success state.
    Done,
}

/// Position of a step in the cycle's fixed order.
pub open spec fn step_index(s: CycleStep) -> int {
    match s {
        CycleStep::Landing => 0,
        CycleStep::SessionReset => 1,
        CycleStep::FormOpen => 2,
        CycleStep::FormFill => 3,
        CycleStep::BaselineCapture => 4,
        CycleStep::Submit => 5,
        CycleStep::CodeWait => 6,
        CycleStep::CodeSubmit => 7,
        CycleStep::PostRegisterLogin => 8,
        CycleStep::PostLoginAction => 9,
        CycleStep::Done => 10,
    }
}

/// The step that follows `s`; the terminal step follows itself.
pub open spec fn step_after(s: CycleStep) -> CycleStep {
    match s {
        CycleStep::Landing => CycleStep::SessionReset,
        CycleStep::SessionReset => CycleStep::FormOpen,
        CycleStep::FormOpen => CycleStep::FormFill,
        CycleStep::FormFill => CycleStep::BaselineCapture,
        CycleStep::BaselineCapture => CycleStep::Submit,
        CycleStep::Submit => CycleStep::CodeWait,
        CycleStep::CodeWait => CycleStep::CodeSubmit,
        CycleStep::CodeSubmit => CycleStep::PostRegisterLogin,
        CycleStep::PostRegisterLogin => CycleStep::PostLoginAction,
        CycleStep::PostLoginAction => CycleStep::Done,
        CycleStep::Done => CycleStep::Done,
    }
}

/// Law: advancing moves exactly one position forward until the terminal
/// step, which stays put; so a cycle started at `Landing` is done after
/// ten advances and no earlier.
pub proof fn lemma_step_order(s: CycleStep)
    ensures
        !(s is Done) ==> step_index(step_after(s)) == step_index(s) + 1,
        s is Done ==> step_after(s) == s,
{
}

/// Law: the watermark baseline is captured strictly before the form is
/// submitted, and the submission strictly before the code wait.
pub proof fn lemma_baseline_before_submit()
    ensures
        step_index(CycleStep::BaselineCapture) < step_index(CycleStep::Submit),
        step_index(CycleStep::Submit) < step_index(CycleStep::CodeWait),
{
}

/// Resolves the page work of one step: success moves to the next step, a
/// missing element or failed action is fatal to the cycle.
pub fn resolve_step(s: CycleStep, ui_ok: bool) -> (r: Result<CycleStep, CycleError>)
    ensures
        ui_ok ==> r == Ok::<CycleStep, CycleError>(step_after(s)),
        !ui_ok ==> r == Err::<CycleStep, CycleError>(CycleError::UiStructure),
{
    if ui_ok {
        Ok(next_step(s))
    } else {
        Err(CycleError::UiStructure)
    }
}

/// The step that follows `s`.
pub fn next_step(s: CycleStep) -> (r: CycleStep)
    ensures
        r == step_after(s),
{
    match s {
        CycleStep::Landing => CycleStep::SessionReset,
        CycleStep::SessionReset => CycleStep::FormOpen,
        CycleStep::FormOpen => CycleStep::FormFill,
        CycleStep::FormFill => CycleStep::BaselineCapture,
        CycleStep::BaselineCapture => CycleStep::Submit,
        CycleStep::Submit => CycleStep::CodeWait,
        CycleStep::CodeWait => CycleStep::CodeSubmit,
        CycleStep::CodeSubmit => CycleStep::PostRegisterLogin,
        CycleStep::PostRegisterLogin => CycleStep::PostLoginAction,
        CycleStep::PostLoginAction => CycleStep::Done,
        CycleStep::Done => CycleStep::Done,
    }
}

/// The class attribute a login button carries while a session is still
/// logged in.
pub open spec fn logout_class() -> Seq<u8> {
    seq![98u8, 116u8, 110u8, 95u8, 108u8, 111u8, 103u8, 111u8, 117u8, 116u8]
}

/// Decides the conditional `SessionReset` step from the observed class
/// attribute of the login button: a prior session is logged in exactly
/// when the attribute reads `btn_logout`.
pub fn is_logged_in(attr_class: &Option<Vec<u8>>) -> (r: bool)
    ensures
        r == (attr_class matches Some(v) && v@ == logout_class()),
{
    match attr_class {
        Some(v) => {
            let mut expected: Vec<u8> = Vec::new();
            expected.push(98);
            expected.push(116);
            expected.push(110);
            expected.push(95);
            expected.push(108);
            expected.push(111);
            expected.push(103);
            expected.push(111);
            expected.push(117);
            expected.push(116);
            proof {
                assert(expected@ =~= logout_class());
            }
            bytes_eq(v, &expected)
        },
        None => false,
    }
}

} // verus!
