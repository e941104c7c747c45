use vstd::prelude::*;

use crate::exchange::ExchangeUnit;
use crate::session::MultibootSession;
use crate::session::init_session;
use crate::session::next;
use crate::session::firmware_next;
use crate::session::control_next;
use crate::session::Phase;
use crate::session::Step;
use crate::session::payload_size_ok;
use crate::session::ERR_PAYLOAD_SIZE;
use crate::session::ERR_NO_LINK;
use crate::session::ERR_NOT_PARENT;
use crate::session::ERR_NO_RESPONSE;
use crate::session::ERR_HEADER_MISMATCH;
use crate::session::ERR_NO_PALETTE;
use crate::session::ERR_SYSCALL_FAILED;
use crate::session::SIO_LINK_PRESENT;
use crate::session::SIO_ID_LOW;

verus! {

/// Orders the steps of one response round: the firmware call stands
/// between an exchange and the verdict.
pub open spec fn step_rank(step: Step) -> int {
    match step {
        Step::Boot => 1,
        _ => 0,
    }
}

/// The remainder of a run: from session `sess` with pending step
/// `step`, sends are answered by `responses[k..]` in order and the
/// firmware call by `firmware_ok`.  Yields the outcome (`None` when the
/// responses run out first) and the words exchanged from here on.
pub open spec fn run_from(
    sess: MultibootSession,
    step: Step,
    responses: Seq<[ExchangeUnit; 3]>,
    k: int,
    firmware_ok: bool,
) -> (Option<Result<(), u16>>, Seq<u16>)
    decreases responses.len() - k, step_rank(step),
{
    match step {
        Step::Send(w) => {
            if k >= responses.len() {
                (None, Seq::empty())
            } else {
                let taken = next(sess, responses[k]);
                let rest = run_from(taken.0, taken.1, responses, k + 1, firmware_ok);
                (rest.0, seq![w] + rest.1)
            }
        },
        Step::Boot => {
            let taken = firmware_next(sess, firmware_ok);
            run_from(taken.0, taken.1, responses, k, firmware_ok)
        },
        Step::Done => (Some(Ok(())), Seq::empty()),
        Step::Fail(e) => (Some(Err(e)), Seq::empty()),
    }
}

/// A whole attempt as a function of the link's behaviour: the size
/// gate, then the machine stepped from its initial session.
pub open spec fn run_spec(
    payload: Seq<u8>,
    palette_data: u8,
    boot_base: usize,
    siocnt: u16,
    responses: Seq<[ExchangeUnit; 3]>,
    firmware_ok: bool,
) -> (Option<Result<(), u16>>, Seq<u16>) {
    if !payload_size_ok(payload.len() as int) {
        (Some(Err(ERR_PAYLOAD_SIZE)), Seq::empty())
    } else {
        let s0 = init_session(payload, palette_data, boot_base);
        let taken = control_next(s0, siocnt);
        run_from(taken.0, taken.1, responses, 0, firmware_ok)
    }
}

/// Runs a whole multiboot attempt against a given behaviour of the
/// link: `siocnt` is the serial-control read-back after link setup,
/// `responses` answers the exchanges in order, and `firmware_ok` is the
/// verdict of the firmware call, should the handshake reach it.
///
/// Returns the attempt's outcome and the words that were exchanged, in
/// order, exactly as `run_spec` gives them.  The outcome is `None` when
/// `responses` ran out before the protocol concluded, and every
/// exchange consumed one response, so a driver of the real link is one
/// `MultibootSession` step per exchange; this function is that same
/// fold over recorded responses.
///
/// The payload gate: the bad-payload-size failure comes exactly on the
/// lengths the size check refuses, and then nothing was exchanged.
/// Link setup: without a link, or as a non-master, the attempt fails
/// with the matching code before any exchange.  Whatever the link does,
/// the defensive no-clients code is never returned, success requires
/// the firmware's assent, and the first exchanged word is the priming
/// 0x6200.
pub fn start_multiboot(
    payload: &Vec<u8>,
    palette_data: u8,
    boot_base: usize,
    siocnt: u16,
    responses: &Vec<[ExchangeUnit; 3]>,
    firmware_ok: bool,
) -> (out: (Option<Result<(), u16>>, Vec<u16>))
    requires
        boot_base + payload@.len() <= usize::MAX,
    ensures
        out.0 == run_spec(payload@, palette_data, boot_base, siocnt, responses@, firmware_ok).0,
        out.1@ == run_spec(payload@, palette_data, boot_base, siocnt, responses@, firmware_ok).1,
        (out.0 == Some(Result::<(), u16>::Err(ERR_PAYLOAD_SIZE))) <==> !payload_size_ok(
            payload@.len() as int,
        ),
        !payload_size_ok(payload@.len() as int) ==> out.1@.len() == 0,
        payload_size_ok(payload@.len() as int) && siocnt & SIO_LINK_PRESENT == 0 ==> out.0 == Some(
            Result::<(), u16>::Err(ERR_NO_LINK),
        ) && out.1@.len() == 0,
        payload_size_ok(payload@.len() as int) && siocnt & SIO_LINK_PRESENT != 0 && siocnt
            & SIO_ID_LOW != 0 ==> out.0 == Some(Result::<(), u16>::Err(ERR_NOT_PARENT))
            && out.1@.len() == 0,
        out.0 == Some(Result::<(), u16>::Ok(())) ==> firmware_ok,
        (out.0 matches Some(Err(e)) ==> e == ERR_PAYLOAD_SIZE || e == ERR_NO_LINK
            || e == ERR_NOT_PARENT || e == ERR_NO_RESPONSE || e == ERR_HEADER_MISMATCH || e
            == ERR_NO_PALETTE || e == ERR_SYSCALL_FAILED
        ),
        out.1@.len() <= responses@.len(),
        out.0 is None ==> out.1@.len() == responses@.len(),
        payload_size_ok(payload@.len() as int) && siocnt & SIO_LINK_PRESENT != 0 && siocnt
            & SIO_ID_LOW == 0 && responses@.len() > 0 ==> out.1@.len() >= 1 && out.1@[0] == 0x6200,
{
    let mut sent: Vec<u16> = Vec::new();
    let mut sess = match MultibootSession::new(payload, palette_data, boot_base) {
        Err(e) => {
            return (Some(Err(e)), sent);
        },
        Ok(s) => s,
    };
    let mut step = sess.on_control(siocnt);
    match step {
        Step::Fail(e) => {
            proof {
                assert(sent@ + Seq::<u16>::empty() =~= sent@);
            }
            return (Some(Err(e)), sent);
        },
        _ => {},
    }
    let mut k: usize = 0;
    loop
        invariant_except_break
            sess.wf(),
            payload@ == sess.image@,
            siocnt & SIO_LINK_PRESENT != 0,
            siocnt & SIO_ID_LOW == 0,
            k <= responses@.len(),
            sent@.len() == k,
            (step matches Step::Send(_)) ==> sess.expects_response(),
            !(step matches Step::Done),
            (step matches Step::Boot) ==> sess.phase == Phase::Firmware,
            (step matches Step::Fail(e) ==> (e == ERR_NO_RESPONSE || e == ERR_HEADER_MISMATCH || e
                == ERR_NO_PALETTE)),
            k == 0 ==> step == Step::Send(0x6200),
            k > 0 ==> sent@[0] == 0x6200,
            run_spec(payload@, palette_data, boot_base, siocnt, responses@, firmware_ok).0
                == run_from(sess, step, responses@, k as int, firmware_ok).0,
            run_spec(payload@, palette_data, boot_base, siocnt, responses@, firmware_ok).1 == sent@
                + run_from(sess, step, responses@, k as int, firmware_ok).1,
        ensures
            sess.wf(),
            k <= responses@.len(),
            sent@.len() == k,
            k > 0,
            !(step matches Step::Send(_)),
            !(step matches Step::Done),
            (step matches Step::Boot) ==> sess.phase == Phase::Firmware,
            (step matches Step::Fail(e) ==> (e == ERR_NO_RESPONSE || e == ERR_HEADER_MISMATCH || e
                == ERR_NO_PALETTE)),
            k > 0 ==> sent@[0] == 0x6200,
            run_spec(payload@, palette_data, boot_base, siocnt, responses@, firmware_ok).0
                == run_from(sess, step, responses@, k as int, firmware_ok).0,
            run_spec(payload@, palette_data, boot_base, siocnt, responses@, firmware_ok).1 == sent@
                + run_from(sess, step, responses@, k as int, firmware_ok).1,
        decreases responses@.len() - k,
    {
        let word = match step {
            Step::Send(w) => w,
            _ => {
                break;
            },
        };
        if k == responses.len() {
            // The scripted link ran out before the protocol concluded.
            proof {
                assert(sent@ + Seq::<u16>::empty() =~= sent@);
            }
            return (None, sent);
        }
        let ghost pre_sent = sent@;
        sent.push(word);
        let resp = responses[k];
        step = sess.on_response(resp, payload);
        k = k + 1;
        proof {
            let tail = run_from(sess, step, responses@, k as int, firmware_ok).1;
            assert(pre_sent + (seq![word] + tail) =~= pre_sent.push(word) + tail);
        }
    }
    match step {
        Step::Boot => {
            let verdict = sess.on_firmware(firmware_ok);
            proof {
                reveal_with_fuel(run_from, 3);
                assert(sent@ + Seq::<u16>::empty() =~= sent@);
            }
            match verdict {
                Step::Done => (Some(Ok(())), sent),
                Step::Fail(e) => (Some(Err(e)), sent),
                _ => {
                    proof {
                        assert(false);
                    }
                    (None, sent)
                },
            }
        },
        Step::Fail(e) => {
            proof {
                assert(sent@ + Seq::<u16>::empty() =~= sent@);
            }
            (Some(Err(e)), sent)
        },
        _ => {
            proof {
                assert(false);
            }
            (None, sent)
        },
    }
}

} // verus!
