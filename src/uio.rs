//! Names of the UIO devices that expose the FPGA blocks of each hash chain.
use vstd::prelude::*;
use vstd::string::StringExecFns;

verus! {

/// Which IO block to open.
#[derive(Clone, Copy, Debug)]
pub enum Type {
    Common(usize),
    WorkRx(usize),
    WorkTx(usize),
    Command(usize),
    GlitchMonitor,
}

/// The decimal digit `d` as a character.
pub open spec fn digit_char(d: nat) -> char {
    if d == 0 {
        '0'
    } else if d == 1 {
        '1'
    } else if d == 2 {
        '2'
    } else if d == 3 {
        '3'
    } else if d == 4 {
        '4'
    } else if d == 5 {
        '5'
    } else if d == 6 {
        '6'
    } else if d == 7 {
        '7'
    } else if d == 8 {
        '8'
    } else {
        '9'
    }
}

/// Decimal representation of `n`, without leading zeros.
pub open spec fn decimal(n: nat) -> Seq<char>
    decreases n,
{
    if n < 10 {
        seq![digit_char(n)]
    } else {
        decimal(n / 10).push(digit_char(n % 10))
    }
}

fn digit_str(d: usize) -> (r: &'static str)
    requires
        d < 10,
    ensures
        r@ == seq![digit_char(d as nat)],
{
    proof {
        reveal_strlit("0");
        reveal_strlit("1");
        reveal_strlit("2");
        reveal_strlit("3");
        reveal_strlit("4");
        reveal_strlit("5");
        reveal_strlit("6");
        reveal_strlit("7");
        reveal_strlit("8");
        reveal_strlit("9");
    }
    if d == 0 {
        "0"
    } else if d == 1 {
        "1"
    } else if d == 2 {
        "2"
    } else if d == 3 {
        "3"
    } else if d == 4 {
        "4"
    } else if d == 5 {
        "5"
    } else if d == 6 {
        "6"
    } else if d == 7 {
        "7"
    } else if d == 8 {
        "8"
    } else {
        "9"
    }
}

fn append_decimal(out: &mut String, n: usize)
    ensures
        final(out)@ == old(out)@ + decimal(n as nat),
    decreases n,
{
    if n >= 10 {
        append_decimal(out, n / 10);
    }
    out.append(digit_str(n % 10));
    assert(final(out)@ =~= old(out)@ + decimal(n as nat));
}

/// UIO name of a block that exists once per hash chain.
pub open spec fn per_hashchain_name(name: Seq<char>, hashboard_idx: usize) -> Seq<char> {
    "chain"@ + decimal(hashboard_idx as nat) + "-"@ + name
}

/// UIO name of a block shared by all hash chains.
pub open spec fn shared_name(name: Seq<char>) -> Seq<char> {
    "miner-"@ + name
}

impl Type {
    /// The hash chain of the block, if it belongs to one.
    pub open spec fn chain_spec(&self) -> Option<usize> {
        match self {
            Type::Common(i) => Some(*i),
            Type::WorkRx(i) => Some(*i),
            Type::WorkTx(i) => Some(*i),
            Type::Command(i) => Some(*i),
            Type::GlitchMonitor => None,
        }
    }

    pub open spec fn uio_name_spec(&self) -> Seq<char> {
        match self {
            Type::Common(i) => per_hashchain_name("common"@, *i),
            Type::WorkRx(i) => per_hashchain_name("work-rx"@, *i),
            Type::WorkTx(i) => per_hashchain_name("work-tx"@, *i),
            Type::Command(i) => per_hashchain_name("cmd-rx"@, *i),
            Type::GlitchMonitor => shared_name("glitch-monitor"@),
        }
    }

    /// `chain<idx>-<name>`; hash boards are numbered from one.
    pub fn per_hashchain_instance(&self, name: &str, hashboard_idx: usize) -> (r: String)
        requires
            hashboard_idx > 0,
        ensures
            r@ == per_hashchain_name(name@, hashboard_idx),
    {
        let mut r = String::from_str("chain");
        append_decimal(&mut r, hashboard_idx);
        r.append("-");
        r.append(name);
        r
    }

    /// `miner-<name>`.
    pub fn shared_instance(&self, name: &str) -> (r: String)
        ensures
            r@ == shared_name(name@),
    {
        let mut r = String::from_str("miner-");
        r.append(name);
        r
    }

    /// Name under which the block's UIO device is registered.
    pub fn to_uio_name(&self) -> (r: String)
        requires
            self.chain_spec() matches Some(i) ==> i > 0,
        ensures
            r@ == self.uio_name_spec(),
    {
        match self {
            Type::Common(i) => self.per_hashchain_instance("common", *i),
            Type::WorkRx(i) => self.per_hashchain_instance("work-rx", *i),
            Type::WorkTx(i) => self.per_hashchain_instance("work-tx", *i),
            Type::Command(i) => self.per_hashchain_instance("cmd-rx", *i),
            Type::GlitchMonitor => self.shared_instance("glitch-monitor"),
        }
    }
}

} // verus!
