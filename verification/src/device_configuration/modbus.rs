//! The device list and its resolution into endpoints.

use crate::modbus::client::ModbusDevice as Endpoint;
use vstd::prelude::*;

verus! {

/// One gateway of the device list: its address and the stations behind it.
#[derive(Debug, Clone, PartialEq, Eq)]
pub struct ModbusDevice {
    /// Host or IP address of the gateway.
    pub ip: String,
    pub port: u16,
    /// The stations to visit, in this order.
    pub slave_ids: Vec<u8>,
}

/// The device list: gateways in the order in which they are visited.
#[derive(Debug, Clone, PartialEq, Eq)]
pub struct Config {
    pub gateways: Vec<ModbusDevice>,
}

/// The endpoints of a list of gateways: those of the first gateway, then those
/// of the second, and so on.
pub open spec fn endpoints_of(gateways: Seq<ModbusDevice>) -> Seq<Endpoint>
    decreases gateways.len(),
{
    if gateways.len() == 0 {
        Seq::empty()
    } else {
        endpoints_of(gateways.drop_last()) + gateways.last().stations()
    }
}

impl ModbusDevice {
    /// The endpoints behind this gateway: one per station, in the order listed,
    /// each with the gateway's address and port.
    pub open spec fn stations(&self) -> Seq<Endpoint> {
        Seq::new(
            self.slave_ids@.len(),
            |i: int| Endpoint { ip: self.ip, port: self.port, slave_id: self.slave_ids@[i] },
        )
    }

    /// Resolves the gateway into its endpoints.
    pub fn endpoints(&self) -> (endpoints: Vec<Endpoint>)
        ensures
            endpoints@ == self.stations(),
    {
        let mut endpoints: Vec<Endpoint> = Vec::new();
        self.push_endpoints(&mut endpoints);
        endpoints
    }

    /// Appends the gateway's endpoints to `out`.
    fn push_endpoints(&self, out: &mut Vec<Endpoint>)
        ensures
            final(out)@ == old(out)@ + self.stations(),
    {
        let mut i: usize = 0;
        while i < self.slave_ids.len()
            invariant
                i <= self.slave_ids.len(),
                out@ == old(out)@ + self.stations().take(i as int),
            decreases self.slave_ids.len() - i,
        {
            out.push(Endpoint { ip: self.ip.clone(), port: self.port, slave_id: self.slave_ids[i] });
            i += 1;
            assert(out@ =~= old(out)@ + self.stations().take(i as int));
        }
        assert(self.stations().take(i as int) =~= self.stations());
    }
}

impl Config {
    /// The device list that names no gateway.
    pub fn empty() -> (config: Config)
        ensures
            config.gateways@.len() == 0,
    {
        Config { gateways: Vec::new() }
    }

    /// Resolves the device list into the endpoints to visit, in visiting order.
    pub fn endpoints(&self) -> (endpoints: Vec<Endpoint>)
        ensures
            endpoints@ == endpoints_of(self.gateways@),
    {
        let mut endpoints: Vec<Endpoint> = Vec::new();
        let mut g: usize = 0;
        while g < self.gateways.len()
            invariant
                g <= self.gateways.len(),
                endpoints@ == endpoints_of(self.gateways@.take(g as int)),
            decreases self.gateways.len() - g,
        {
            self.gateways[g].push_endpoints(&mut endpoints);
            g += 1;
            assert(self.gateways@.take(g as int).drop_last() =~= self.gateways@.take(g - 1));
        }
        assert(self.gateways@.take(g as int) =~= self.gateways@);
        endpoints
    }
}

/// A list of one gateway resolves into the endpoints of that gateway.
pub proof fn endpoints_of_one(gateway: ModbusDevice)
    ensures
        endpoints_of(seq![gateway]) == gateway.stations(),
{
    let one = seq![gateway];
    assert(one.last() == gateway);
    assert(endpoints_of(one.drop_last()) =~= Seq::<Endpoint>::empty());
    assert(endpoints_of(one) =~= gateway.stations());
}

/// A list resolves into the endpoints of its front part followed by those of
/// its back part, wherever it is cut: every gateway contributes its endpoints
/// once, and they keep the order of the list.
pub proof fn endpoints_of_concat(front: Seq<ModbusDevice>, back: Seq<ModbusDevice>)
    ensures
        endpoints_of(front + back) == endpoints_of(front) + endpoints_of(back),
    decreases back.len(),
{
    if back.len() == 0 {
        assert(front + back =~= front);
        assert(endpoints_of(front) + endpoints_of(back) =~= endpoints_of(front));
    } else {
        endpoints_of_concat(front, back.drop_last());
        assert((front + back).drop_last() =~= front + back.drop_last());
        assert((front + back).last() == back.last());
        assert(endpoints_of(front + back) =~= endpoints_of(front) + endpoints_of(back));
    }
}

} // verus!
