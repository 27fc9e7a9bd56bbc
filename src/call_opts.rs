use crate::address::EthAddress;
use crate::uint256::EthU256Input;
use vstd::prelude::*;

verus! {

/// The optional parameters of a simulated contract call. An absent field is not
/// the same as a zero one.
#[derive(Debug)]
pub struct CallOpts {
    pub from: Option<EthAddress>,
    pub to: Option<EthAddress>,
    pub gas: Option<EthU256Input>,
    pub gas_price: Option<EthU256Input>,
    pub value: Option<EthU256Input>,
    pub data: Option<Vec<u8>>,
}

/// The contents of a `CallOpts`, with the call data as a sequence of bytes.
pub struct CallOptsModel {
    pub from: Option<EthAddress>,
    pub to: Option<EthAddress>,
    pub gas: Option<EthU256Input>,
    pub gas_price: Option<EthU256Input>,
    pub value: Option<EthU256Input>,
    pub data: Option<Seq<u8>>,
}

impl View for CallOpts {
    type V = CallOptsModel;

    open spec fn view(&self) -> CallOptsModel {
        CallOptsModel {
            from: self.from,
            to: self.to,
            gas: self.gas,
            gas_price: self.gas_price,
            value: self.value,
            data: match self.data {
                Some(d) => Some(d@),
                None => None,
            },
        }
    }
}

/// One setter call: which field it writes, and with what.
pub enum FieldWrite {
    From(EthAddress),
    To(EthAddress),
    Gas(EthU256Input),
    GasPrice(EthU256Input),
    Value(EthU256Input),
    Data(Seq<u8>),
}

/// The field that a write targets, numbered in declaration order.
pub open spec fn field_of(w: FieldWrite) -> nat {
    match w {
        FieldWrite::From(_) => 0,
        FieldWrite::To(_) => 1,
        FieldWrite::Gas(_) => 2,
        FieldWrite::GasPrice(_) => 3,
        FieldWrite::Value(_) => 4,
        FieldWrite::Data(_) => 5,
    }
}

/// The options after one write: its field holds its value, every other field is kept.
pub open spec fn apply_write(m: CallOptsModel, w: FieldWrite) -> CallOptsModel {
    match w {
        FieldWrite::From(a) => CallOptsModel { from: Some(a), ..m },
        FieldWrite::To(a) => CallOptsModel { to: Some(a), ..m },
        FieldWrite::Gas(v) => CallOptsModel { gas: Some(v), ..m },
        FieldWrite::GasPrice(v) => CallOptsModel { gas_price: Some(v), ..m },
        FieldWrite::Value(v) => CallOptsModel { value: Some(v), ..m },
        FieldWrite::Data(d) => CallOptsModel { data: Some(d), ..m },
    }
}

/// The options after a run of writes, first to last.
pub open spec fn apply_writes(m: CallOptsModel, ws: Seq<FieldWrite>) -> CallOptsModel
    decreases ws.len(),
{
    if ws.len() == 0 {
        m
    } else {
        apply_write(apply_writes(m, ws.drop_last()), ws.last())
    }
}

/// `m` holds the value of write `w` in the field that `w` targets.
pub open spec fn holds_write(m: CallOptsModel, w: FieldWrite) -> bool {
    match w {
        FieldWrite::From(a) => m.from == Some(a),
        FieldWrite::To(a) => m.to == Some(a),
        FieldWrite::Gas(v) => m.gas == Some(v),
        FieldWrite::GasPrice(v) => m.gas_price == Some(v),
        FieldWrite::Value(v) => m.value == Some(v),
        FieldWrite::Data(d) => m.data == Some(d),
    }
}

/// Field `f` of `m1` and of `m2` agree.
pub open spec fn same_field(m1: CallOptsModel, m2: CallOptsModel, f: nat) -> bool {
    if f == 0 {
        m1.from == m2.from
    } else if f == 1 {
        m1.to == m2.to
    } else if f == 2 {
        m1.gas == m2.gas
    } else if f == 3 {
        m1.gas_price == m2.gas_price
    } else if f == 4 {
        m1.value == m2.value
    } else {
        m1.data == m2.data
    }
}

/// No two writes of `ws` target the same field.
pub open spec fn distinct_fields(ws: Seq<FieldWrite>) -> bool {
    forall|i: int, j: int|
        0 <= i < ws.len() && 0 <= j < ws.len() && i != j ==> field_of(#[trigger] ws[i])
            != field_of(#[trigger] ws[j])
}

/// Writes to distinct fields, applied in any order, leave each written field with
/// its value and every other field as it was: a copy taken after all of them sees
/// every one.
pub proof fn lemma_writes_all_seen(m: CallOptsModel, ws: Seq<FieldWrite>)
    requires
        distinct_fields(ws),
    ensures
        forall|i: int| 0 <= i < ws.len() ==> holds_write(apply_writes(m, ws), #[trigger] ws[i]),
        forall|f: nat|
            f < 6 && (forall|i: int| 0 <= i < ws.len() ==> field_of(#[trigger] ws[i]) != f)
                ==> #[trigger] same_field(apply_writes(m, ws), m, f),
    decreases ws.len(),
{
    if ws.len() > 0 {
        let init = ws.drop_last();
        assert(distinct_fields(init)) by {
            assert forall|i: int, j: int|
                0 <= i < init.len() && 0 <= j < init.len() && i != j implies field_of(
                #[trigger] init[i],
            ) != field_of(#[trigger] init[j]) by {
                assert(init[i] == ws[i] && init[j] == ws[j]);
            }
        }
        lemma_writes_all_seen(m, init);
        let last = ws.last();
        assert forall|i: int| 0 <= i < ws.len() implies holds_write(
            apply_writes(m, ws),
            #[trigger] ws[i],
        ) by {
            if i < ws.len() - 1 {
                assert(init[i] == ws[i]);
                assert(field_of(ws[i]) != field_of(ws[ws.len() - 1]));
            }
        }
        assert forall|f: nat|
            f < 6 && (forall|i: int| 0 <= i < ws.len() ==> field_of(#[trigger] ws[i]) != f)
                implies #[trigger] same_field(apply_writes(m, ws), m, f) by {
            assert forall|i: int| 0 <= i < init.len() implies field_of(#[trigger] init[i]) != f by {
                assert(init[i] == ws[i]);
            }
            assert(field_of(ws[ws.len() - 1]) != f);
            assert(same_field(apply_writes(m, init), m, f));
            assert(apply_writes(m, ws) == apply_write(apply_writes(m, init), last));
        }
    }
}

/// The copy of a call-data buffer.
fn copy_data(data: &Option<Vec<u8>>) -> (r: Option<Vec<u8>>)
    ensures
        match data {
            Some(d) => r matches Some(c) && c@ == d@,
            None => r is None,
        },
{
    match data {
        Some(d) => Some(d.clone()),
        None => None,
    }
}

impl CallOpts {
    /// A full copy.
    pub fn snapshot(&self) -> (r: CallOpts)
        ensures
            r@ == self@,
    {
        CallOpts {
            from: self.from,
            to: self.to,
            gas: self.gas,
            gas_price: self.gas_price,
            value: self.value,
            data: copy_data(&self.data),
        }
    }
}

/// Call options that a host fills in field by field and then reads whole.
#[derive(Debug)]
pub struct JsCallOpts {
    opts: CallOpts,
}

impl View for JsCallOpts {
    type V = CallOptsModel;

    closed spec fn view(&self) -> CallOptsModel {
        self.opts@
    }
}

impl JsCallOpts {
    /// Options with every field absent.
    pub fn construct() -> (r: JsCallOpts)
        ensures
            r@.from is None,
            r@.to is None,
            r@.gas is None,
            r@.gas_price is None,
            r@.value is None,
            r@.data is None,
    {
        JsCallOpts {
            opts: CallOpts { from: None, to: None, gas: None, gas_price: None, value: None, data: None },
        }
    }

    /// Sets the sender.
    pub fn set_from(&mut self, address: EthAddress)
        ensures
            final(self)@ == apply_write(old(self)@, FieldWrite::From(address)),
    {
        self.opts.from = Some(address);
    }

    /// Sets the recipient.
    pub fn set_to(&mut self, address: EthAddress)
        ensures
            final(self)@ == apply_write(old(self)@, FieldWrite::To(address)),
    {
        self.opts.to = Some(address);
    }

    /// Sets the gas limit.
    pub fn set_gas(&mut self, gas: EthU256Input)
        ensures
            final(self)@ == apply_write(old(self)@, FieldWrite::Gas(gas)),
    {
        self.opts.gas = Some(gas);
    }

    /// Sets the gas price.
    pub fn set_gas_price(&mut self, gas_price: EthU256Input)
        ensures
            final(self)@ == apply_write(old(self)@, FieldWrite::GasPrice(gas_price)),
    {
        self.opts.gas_price = Some(gas_price);
    }

    /// Sets the value sent with the call.
    pub fn set_value(&mut self, value: EthU256Input)
        ensures
            final(self)@ == apply_write(old(self)@, FieldWrite::Value(value)),
    {
        self.opts.value = Some(value);
    }

    /// Sets the call data.
    pub fn set_data(&mut self, data: Vec<u8>)
        ensures
            final(self)@ == apply_write(old(self)@, FieldWrite::Data(data@)),
    {
        self.opts.data = Some(data);
    }

    /// A copy of the options as they stand; the options stay as they are.
    pub fn snapshot(&self) -> (r: CallOpts)
        ensures
            r@ == self@,
    {
        self.opts.snapshot()
    }
}

} // verus!
