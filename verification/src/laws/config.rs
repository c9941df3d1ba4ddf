//! What holds of the settings, whatever the environment is.

use crate::command::Cmd;
use crate::config;
use crate::config::Config;
use crate::text;
use crate::worker::WorkerView;
use vstd::prelude::*;

verus! {

/// There is always a baud rate to scan at.
pub proof fn law_there_is_a_rate_to_scan_at(vars: Seq<(String, String)>)
    ensures
        config::rates_var(vars, "SCAN_BAUD_RATES"@, config::standard_baud_rates()).len() > 0,
{
}

/// A variable that is not set leaves its setting at the default, of whatever type it is.
pub proof fn law_unset_means_default(
    vars: Seq<(String, String)>,
    key: Seq<char>,
    text: Seq<char>,
    number: nat,
    max: nat,
    switch: bool,
    rates: Seq<u32>,
)
    requires
        forall|i: int| 0 <= i < vars.len() ==> (#[trigger] vars[i]).0@ != key,
    ensures
        config::text_var(vars, key, text) == text,
        config::number_var(vars, key, number, max) == number,
        config::bool_var(vars, key, switch) == switch,
        config::rates_var(vars, key, rates) == rates,
{
    lemma_unset(vars, key);
}

proof fn lemma_unset(vars: Seq<(String, String)>, key: Seq<char>)
    requires
        forall|i: int| 0 <= i < vars.len() ==> (#[trigger] vars[i]).0@ != key,
    ensures
        config::lookup(vars, key) is None,
    decreases vars.len(),
{
    if vars.len() > 0 {
        let rest = vars.drop_first();
        assert forall|i: int| 0 <= i < rest.len() implies (#[trigger] rest[i]).0@ != key by {
            assert(rest[i] == vars[i + 1]);
        }
        lemma_unset(rest, key);
    }
}

/// A number in decimal sets its setting if it fits, and else leaves the default.
pub proof fn law_decimal_is_read(
    vars: Seq<(String, String)>,
    key: Seq<char>,
    n: nat,
    default: nat,
    max: nat,
)
    requires
        config::lookup(vars, key) == Some(text::decimal(n)),
    ensures
        config::number_var(vars, key, default, max) == if n <= max {
            n
        } else {
            default
        },
{
    lemma_decimal(n);
    assert(text::unsigned(text::decimal(n)) == text::decimal(n)) by {
        assert('0' <= text::decimal(n)[0] <= '9');
    }
}

proof fn lemma_decimal(n: nat)
    ensures
        text::all_digits(text::decimal(n)),
        text::digits_value(text::decimal(n)) == n,
    decreases n,
{
    let s = text::decimal(n);
    if n < 10 {
        assert(s.drop_last() =~= Seq::<char>::empty());
        assert(text::digits_value(s.drop_last()) == 0);
    } else {
        lemma_decimal(n / 10);
        assert(s.drop_last() =~= text::decimal(n / 10));
        assert forall|i: int| 0 <= i < s.len() implies '0' <= #[trigger] s[i] <= '9' by {
            if i < s.len() - 1 {
                assert(s[i] == text::decimal(n / 10)[i]);
            }
        }
    }
}

/// Scans of all that is in the settings are the same work, whatever their tags. The scan at
/// start-up is such a scan, and so is one that is asked for without any field.
pub proof fn law_full_scans_are_alike(config: Config, worker: WorkerView, a: Cmd, b: Cmd)
    requires
        config.scanned_by(a),
        config.scanned_by(b),
    ensures
        worker.taken(a) == worker.taken(b),
{
}

/// Commands of different kinds have different names.
pub proof fn law_names_tell_commands_apart(a: Cmd, b: Cmd)
    ensures
        a.label() == b.label() ==> {
            &&& a is ReadHoldingRegisters == b is ReadHoldingRegisters
            &&& a is ReadInputRegisters == b is ReadInputRegisters
            &&& a is ReadCoils == b is ReadCoils
            &&& a is ReadDiscreteInputs == b is ReadDiscreteInputs
            &&& a is WriteSingleRegister == b is WriteSingleRegister
            &&& a is WriteMultipleRegisters == b is WriteMultipleRegisters
            &&& a is WriteSingleCoil == b is WriteSingleCoil
            &&& a is ScanBus == b is ScanBus
        },
{
    reveal_strlit("read_holding_registers");
    reveal_strlit("read_input_registers");
    reveal_strlit("read_coils");
    reveal_strlit("read_discrete_inputs");
    reveal_strlit("write_single_register");
    reveal_strlit("write_multiple_registers");
    reveal_strlit("write_single_coil");
    reveal_strlit("scan_bus");
    if a.label() == b.label() {
        assert(a.label()[0] == b.label()[0]);
        assert(a.label()[5] == b.label()[5]);
        assert(a.label().len() == b.label().len());
    }
}

} // verus!
