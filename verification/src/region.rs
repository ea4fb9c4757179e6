//! Regions of Qiniu storage: for each service, the endpoints to reach it,
//! and a region provider that always gives the same regions.

use crate::endpoint::{DomainWithPort, Endpoint, IpAddrWithPort};
use vstd::prelude::*;

verus! {

/// A service of Qiniu storage.
#[derive(Debug, Copy, Clone, PartialEq, Eq, Structural)]
#[non_exhaustive]
pub enum ServiceName {
    Up,
    Io,
    Uc,
    Rs,
    Rsf,
    Api,
    S3,
}

/// A copy of an endpoint.
pub fn duplicate_endpoint(e: &Endpoint) -> (r: Endpoint)
    ensures
        r == *e,
{
    match e {
        Endpoint::DomainWithPort(d) => Endpoint::DomainWithPort(d.duplicate()),
        Endpoint::IpAddrWithPort(a) => Endpoint::IpAddrWithPort(*a),
    }
}

/// A copy of a list of endpoints.
pub fn duplicate_endpoints(v: &Vec<Endpoint>) -> (r: Vec<Endpoint>)
    ensures
        r@ == v@,
{
    let mut r: Vec<Endpoint> = Vec::new();
    let mut i: usize = 0;
    while i < v.len()
        invariant
            i <= v.len(),
            r@ == v@.take(i as int),
        decreases v.len() - i,
    {
        r.push(duplicate_endpoint(&v[i]));
        assert(v@.take(i + 1) =~= v@.take(i as int).push(v@[i as int]));
        i = i + 1;
    }
    assert(v@.take(v.len() as int) =~= v@);
    r
}

/// The endpoints of one service: those in use, and older ones.
#[derive(Debug)]
pub struct Endpoints {
    endpoints: Vec<Endpoint>,
    old_endpoints: Vec<Endpoint>,
}

impl Endpoints {
    /// The endpoints in use.
    pub closed spec fn current(self) -> Seq<Endpoint> {
        self.endpoints@
    }

    /// The older endpoints.
    pub closed spec fn older(self) -> Seq<Endpoint> {
        self.old_endpoints@
    }

    /// The endpoints of a service.
    pub fn new(endpoints: Vec<Endpoint>, old_endpoints: Vec<Endpoint>) -> (e: Self)
        ensures
            e.current() == endpoints@,
            e.older() == old_endpoints@,
    {
        Endpoints { endpoints, old_endpoints }
    }

    /// The endpoints in use.
    pub fn endpoints(&self) -> (r: &[Endpoint])
        ensures
            r@ == self.current(),
    {
        self.endpoints.as_slice()
    }

    /// The older endpoints.
    pub fn old_endpoints(&self) -> (r: &[Endpoint])
        ensures
            r@ == self.older(),
    {
        self.old_endpoints.as_slice()
    }

    /// A copy.
    pub fn duplicate(&self) -> (r: Self)
        ensures
            r.current() == self.current(),
            r.older() == self.older(),
    {
        Endpoints {
            endpoints: duplicate_endpoints(&self.endpoints),
            old_endpoints: duplicate_endpoints(&self.old_endpoints),
        }
    }
}

/// A region of Qiniu storage: its IDs and the endpoints of each service.
#[derive(Debug)]
pub struct Region {
    region_id: String,
    s3_region_id: String,
    up: Endpoints,
    io: Endpoints,
    uc: Endpoints,
    rs: Endpoints,
    rsf: Endpoints,
    api: Endpoints,
    s3: Endpoints,
}

impl Region {
    /// The region ID.
    pub closed spec fn id(self) -> Seq<char> {
        self.region_id@
    }

    /// The S3 region ID.
    pub closed spec fn s3_id(self) -> Seq<char> {
        self.s3_region_id@
    }

    /// The endpoints in use of a service.
    pub closed spec fn endpoints_of(self, service: ServiceName) -> Seq<Endpoint> {
        match service {
            ServiceName::Up => self.up.current(),
            ServiceName::Io => self.io.current(),
            ServiceName::Uc => self.uc.current(),
            ServiceName::Rs => self.rs.current(),
            ServiceName::Rsf => self.rsf.current(),
            ServiceName::Api => self.api.current(),
            ServiceName::S3 => self.s3.current(),
        }
    }

    /// The older endpoints of a service.
    pub closed spec fn old_endpoints_of(self, service: ServiceName) -> Seq<Endpoint> {
        match service {
            ServiceName::Up => self.up.older(),
            ServiceName::Io => self.io.older(),
            ServiceName::Uc => self.uc.older(),
            ServiceName::Rs => self.rs.older(),
            ServiceName::Rsf => self.rsf.older(),
            ServiceName::Api => self.api.older(),
            ServiceName::S3 => self.s3.older(),
        }
    }

    /// The region ID.
    pub fn region_id(&self) -> (r: &str)
        ensures
            r@ == self.id(),
    {
        self.region_id.as_str()
    }

    /// The S3 region ID.
    pub fn s3_region_id(&self) -> (r: &str)
        ensures
            r@ == self.s3_id(),
    {
        self.s3_region_id.as_str()
    }

    /// A builder of a region with this ID.
    pub fn builder(region_id: String) -> (b: RegionBuilder)
        ensures
            b.id() == region_id@,
            b.s3_id() == Seq::<char>::empty(),
            forall|s: ServiceName| b.endpoints_of(s) == Seq::<Endpoint>::empty() && b.old_endpoints_of(s) == Seq::<Endpoint>::empty(),
    {
        RegionBuilder::new(region_id)
    }

    /// The endpoints of a service.
    pub fn service_endpoints(&self, service: ServiceName) -> (r: &Endpoints)
        ensures
            r.current() == self.endpoints_of(service),
            r.older() == self.old_endpoints_of(service),
    {
        match service {
            ServiceName::Up => &self.up,
            ServiceName::Io => &self.io,
            ServiceName::Uc => &self.uc,
            ServiceName::Rs => &self.rs,
            ServiceName::Rsf => &self.rsf,
            ServiceName::Api => &self.api,
            ServiceName::S3 => &self.s3,
        }
    }

    /// The upload endpoints.
    pub fn up_endpoints(&self) -> (r: &[Endpoint])
        ensures
            r@ == self.endpoints_of(ServiceName::Up),
    {
        self.up.endpoints()
    }

    /// The older upload endpoints.
    pub fn up_old_endpoints(&self) -> (r: &[Endpoint])
        ensures
            r@ == self.old_endpoints_of(ServiceName::Up),
    {
        self.up.old_endpoints()
    }

    /// The download endpoints.
    pub fn io_endpoints(&self) -> (r: &[Endpoint])
        ensures
            r@ == self.endpoints_of(ServiceName::Io),
    {
        self.io.endpoints()
    }

    /// The older download endpoints.
    pub fn io_old_endpoints(&self) -> (r: &[Endpoint])
        ensures
            r@ == self.old_endpoints_of(ServiceName::Io),
    {
        self.io.old_endpoints()
    }

    /// The UC endpoints.
    pub fn uc_endpoints(&self) -> (r: &[Endpoint])
        ensures
            r@ == self.endpoints_of(ServiceName::Uc),
    {
        self.uc.endpoints()
    }

    /// The older UC endpoints.
    pub fn uc_old_endpoints(&self) -> (r: &[Endpoint])
        ensures
            r@ == self.old_endpoints_of(ServiceName::Uc),
    {
        self.uc.old_endpoints()
    }

    /// The RS endpoints.
    pub fn rs_endpoints(&self) -> (r: &[Endpoint])
        ensures
            r@ == self.endpoints_of(ServiceName::Rs),
    {
        self.rs.endpoints()
    }

    /// The older RS endpoints.
    pub fn rs_old_endpoints(&self) -> (r: &[Endpoint])
        ensures
            r@ == self.old_endpoints_of(ServiceName::Rs),
    {
        self.rs.old_endpoints()
    }

    /// The RSF endpoints.
    pub fn rsf_endpoints(&self) -> (r: &[Endpoint])
        ensures
            r@ == self.endpoints_of(ServiceName::Rsf),
    {
        self.rsf.endpoints()
    }

    /// The older RSF endpoints.
    pub fn rsf_old_endpoints(&self) -> (r: &[Endpoint])
        ensures
            r@ == self.old_endpoints_of(ServiceName::Rsf),
    {
        self.rsf.old_endpoints()
    }

    /// The API endpoints.
    pub fn api_endpoints(&self) -> (r: &[Endpoint])
        ensures
            r@ == self.endpoints_of(ServiceName::Api),
    {
        self.api.endpoints()
    }

    /// The older API endpoints.
    pub fn api_old_endpoints(&self) -> (r: &[Endpoint])
        ensures
            r@ == self.old_endpoints_of(ServiceName::Api),
    {
        self.api.old_endpoints()
    }

    /// The S3 endpoints.
    pub fn s3_endpoints(&self) -> (r: &[Endpoint])
        ensures
            r@ == self.endpoints_of(ServiceName::S3),
    {
        self.s3.endpoints()
    }

    /// The older S3 endpoints.
    pub fn s3_old_endpoints(&self) -> (r: &[Endpoint])
        ensures
            r@ == self.old_endpoints_of(ServiceName::S3),
    {
        self.s3.old_endpoints()
    }

    /// A copy of the region.
    pub fn duplicate(&self) -> (r: Self)
        ensures
            r.id() == self.id(),
            r.s3_id() == self.s3_id(),
            forall|s: ServiceName| r.endpoints_of(s) == self.endpoints_of(s) && r.old_endpoints_of(s) == self.old_endpoints_of(s),
    {
        Region {
            region_id: self.region_id.clone(),
            s3_region_id: self.s3_region_id.clone(),
            up: self.up.duplicate(),
            io: self.io.duplicate(),
            uc: self.uc.duplicate(),
            rs: self.rs.duplicate(),
            rsf: self.rsf.duplicate(),
            api: self.api.duplicate(),
            s3: self.s3.duplicate(),
        }
    }
}

/// Builds a region.
#[derive(Debug)]
pub struct RegionBuilder {
    region_id: String,
    s3_region_id: String,
    up: Vec<Endpoint>,
    up_old: Vec<Endpoint>,
    io: Vec<Endpoint>,
    io_old: Vec<Endpoint>,
    uc: Vec<Endpoint>,
    uc_old: Vec<Endpoint>,
    rs: Vec<Endpoint>,
    rs_old: Vec<Endpoint>,
    rsf: Vec<Endpoint>,
    rsf_old: Vec<Endpoint>,
    api: Vec<Endpoint>,
    api_old: Vec<Endpoint>,
    s3: Vec<Endpoint>,
    s3_old: Vec<Endpoint>,
}

impl RegionBuilder {
    /// The region ID.
    pub closed spec fn id(self) -> Seq<char> {
        self.region_id@
    }

    /// The S3 region ID.
    pub closed spec fn s3_id(self) -> Seq<char> {
        self.s3_region_id@
    }

    /// The endpoints in use of a service, so far.
    pub closed spec fn endpoints_of(self, service: ServiceName) -> Seq<Endpoint> {
        match service {
            ServiceName::Up => self.up@,
            ServiceName::Io => self.io@,
            ServiceName::Uc => self.uc@,
            ServiceName::Rs => self.rs@,
            ServiceName::Rsf => self.rsf@,
            ServiceName::Api => self.api@,
            ServiceName::S3 => self.s3@,
        }
    }

    /// The older endpoints of a service, so far.
    pub closed spec fn old_endpoints_of(self, service: ServiceName) -> Seq<Endpoint> {
        match service {
            ServiceName::Up => self.up_old@,
            ServiceName::Io => self.io_old@,
            ServiceName::Uc => self.uc_old@,
            ServiceName::Rs => self.rs_old@,
            ServiceName::Rsf => self.rsf_old@,
            ServiceName::Api => self.api_old@,
            ServiceName::S3 => self.s3_old@,
        }
    }

    /// A builder with this region ID, no S3 region ID and no endpoint.
    pub fn new(region_id: String) -> (b: Self)
        ensures
            b.id() == region_id@,
            b.s3_id() == Seq::<char>::empty(),
            forall|s: ServiceName| b.endpoints_of(s) == Seq::<Endpoint>::empty() && b.old_endpoints_of(s) == Seq::<Endpoint>::empty(),
    {
        RegionBuilder {
            region_id,
            s3_region_id: String::new(),
            up: Vec::new(),
            up_old: Vec::new(),
            io: Vec::new(),
            io_old: Vec::new(),
            uc: Vec::new(),
            uc_old: Vec::new(),
            rs: Vec::new(),
            rs_old: Vec::new(),
            rsf: Vec::new(),
            rsf_old: Vec::new(),
            api: Vec::new(),
            api_old: Vec::new(),
            s3: Vec::new(),
            s3_old: Vec::new(),
        }
    }

    /// Sets the S3 region ID.
    pub fn s3_region_id(self, s3_region_id: String) -> (b: Self)
        ensures
            b.id() == self.id(),
            b.s3_id() == s3_region_id@,
            forall|s: ServiceName| b.endpoints_of(s) == self.endpoints_of(s) && b.old_endpoints_of(s) == self.old_endpoints_of(s),
    {
        RegionBuilder { s3_region_id, ..self }
    }

    /// Appends an endpoint to a service, to those in use or, with `older`, to
    /// the older ones.
    pub fn push_endpoint(self, service: ServiceName, older: bool, endpoint: Endpoint) -> (b: Self)
        ensures
            b.id() == self.id(),
            b.s3_id() == self.s3_id(),
            forall|s: ServiceName| #[trigger] b.endpoints_of(s) == if s == service && !older {
                self.endpoints_of(s).push(endpoint)
            } else {
                self.endpoints_of(s)
            },
            forall|s: ServiceName| #[trigger] b.old_endpoints_of(s) == if s == service && older {
                self.old_endpoints_of(s).push(endpoint)
            } else {
                self.old_endpoints_of(s)
            },
    {
        let mut b = self;
        match (service, older) {
            (ServiceName::Up, false) => b.up.push(endpoint),
            (ServiceName::Up, true) => b.up_old.push(endpoint),
            (ServiceName::Io, false) => b.io.push(endpoint),
            (ServiceName::Io, true) => b.io_old.push(endpoint),
            (ServiceName::Uc, false) => b.uc.push(endpoint),
            (ServiceName::Uc, true) => b.uc_old.push(endpoint),
            (ServiceName::Rs, false) => b.rs.push(endpoint),
            (ServiceName::Rs, true) => b.rs_old.push(endpoint),
            (ServiceName::Rsf, false) => b.rsf.push(endpoint),
            (ServiceName::Rsf, true) => b.rsf_old.push(endpoint),
            (ServiceName::Api, false) => b.api.push(endpoint),
            (ServiceName::Api, true) => b.api_old.push(endpoint),
            (ServiceName::S3, false) => b.s3.push(endpoint),
            (ServiceName::S3, true) => b.s3_old.push(endpoint),
        }
        b
    }

    /// Appends an endpoint to the upload endpoints.
    pub fn push_up_endpoint(self, endpoint: Endpoint) -> (b: Self)
        ensures
            b.id() == self.id(),
            b.s3_id() == self.s3_id(),
            forall|s: ServiceName| #[trigger] b.endpoints_of(s) == if s == ServiceName::Up {
                self.endpoints_of(s).push(endpoint)
            } else {
                self.endpoints_of(s)
            },
            forall|s: ServiceName| #[trigger] b.old_endpoints_of(s) == self.old_endpoints_of(s),
    {
        self.push_endpoint(ServiceName::Up, false, endpoint)
    }

    /// Appends an endpoint to the older upload endpoints.
    pub fn push_up_old_endpoint(self, endpoint: Endpoint) -> (b: Self)
        ensures
            b.id() == self.id(),
            b.s3_id() == self.s3_id(),
            forall|s: ServiceName| #[trigger] b.endpoints_of(s) == self.endpoints_of(s),
            forall|s: ServiceName| #[trigger] b.old_endpoints_of(s) == if s == ServiceName::Up {
                self.old_endpoints_of(s).push(endpoint)
            } else {
                self.old_endpoints_of(s)
            },
    {
        self.push_endpoint(ServiceName::Up, true, endpoint)
    }

    /// Appends an endpoint to the download endpoints.
    pub fn push_io_endpoint(self, endpoint: Endpoint) -> (b: Self)
        ensures
            b.id() == self.id(),
            b.s3_id() == self.s3_id(),
            forall|s: ServiceName| #[trigger] b.endpoints_of(s) == if s == ServiceName::Io {
                self.endpoints_of(s).push(endpoint)
            } else {
                self.endpoints_of(s)
            },
            forall|s: ServiceName| #[trigger] b.old_endpoints_of(s) == self.old_endpoints_of(s),
    {
        self.push_endpoint(ServiceName::Io, false, endpoint)
    }

    /// Appends an endpoint to the older download endpoints.
    pub fn push_io_old_endpoint(self, endpoint: Endpoint) -> (b: Self)
        ensures
            b.id() == self.id(),
            b.s3_id() == self.s3_id(),
            forall|s: ServiceName| #[trigger] b.endpoints_of(s) == self.endpoints_of(s),
            forall|s: ServiceName| #[trigger] b.old_endpoints_of(s) == if s == ServiceName::Io {
                self.old_endpoints_of(s).push(endpoint)
            } else {
                self.old_endpoints_of(s)
            },
    {
        self.push_endpoint(ServiceName::Io, true, endpoint)
    }

    /// Appends an endpoint to the UC endpoints.
    pub fn push_uc_endpoint(self, endpoint: Endpoint) -> (b: Self)
        ensures
            b.id() == self.id(),
            b.s3_id() == self.s3_id(),
            forall|s: ServiceName| #[trigger] b.endpoints_of(s) == if s == ServiceName::Uc {
                self.endpoints_of(s).push(endpoint)
            } else {
                self.endpoints_of(s)
            },
            forall|s: ServiceName| #[trigger] b.old_endpoints_of(s) == self.old_endpoints_of(s),
    {
        self.push_endpoint(ServiceName::Uc, false, endpoint)
    }

    /// Appends an endpoint to the older UC endpoints.
    pub fn push_uc_old_endpoint(self, endpoint: Endpoint) -> (b: Self)
        ensures
            b.id() == self.id(),
            b.s3_id() == self.s3_id(),
            forall|s: ServiceName| #[trigger] b.endpoints_of(s) == self.endpoints_of(s),
            forall|s: ServiceName| #[trigger] b.old_endpoints_of(s) == if s == ServiceName::Uc {
                self.old_endpoints_of(s).push(endpoint)
            } else {
                self.old_endpoints_of(s)
            },
    {
        self.push_endpoint(ServiceName::Uc, true, endpoint)
    }

    /// Appends an endpoint to the RS endpoints.
    pub fn push_rs_endpoint(self, endpoint: Endpoint) -> (b: Self)
        ensures
            b.id() == self.id(),
            b.s3_id() == self.s3_id(),
            forall|s: ServiceName| #[trigger] b.endpoints_of(s) == if s == ServiceName::Rs {
                self.endpoints_of(s).push(endpoint)
            } else {
                self.endpoints_of(s)
            },
            forall|s: ServiceName| #[trigger] b.old_endpoints_of(s) == self.old_endpoints_of(s),
    {
        self.push_endpoint(ServiceName::Rs, false, endpoint)
    }

    /// Appends an endpoint to the older RS endpoints.
    pub fn push_rs_old_endpoint(self, endpoint: Endpoint) -> (b: Self)
        ensures
            b.id() == self.id(),
            b.s3_id() == self.s3_id(),
            forall|s: ServiceName| #[trigger] b.endpoints_of(s) == self.endpoints_of(s),
            forall|s: ServiceName| #[trigger] b.old_endpoints_of(s) == if s == ServiceName::Rs {
                self.old_endpoints_of(s).push(endpoint)
            } else {
                self.old_endpoints_of(s)
            },
    {
        self.push_endpoint(ServiceName::Rs, true, endpoint)
    }

    /// Appends an endpoint to the RSF endpoints.
    pub fn push_rsf_endpoint(self, endpoint: Endpoint) -> (b: Self)
        ensures
            b.id() == self.id(),
            b.s3_id() == self.s3_id(),
            forall|s: ServiceName| #[trigger] b.endpoints_of(s) == if s == ServiceName::Rsf {
                self.endpoints_of(s).push(endpoint)
            } else {
                self.endpoints_of(s)
            },
            forall|s: ServiceName| #[trigger] b.old_endpoints_of(s) == self.old_endpoints_of(s),
    {
        self.push_endpoint(ServiceName::Rsf, false, endpoint)
    }

    /// Appends an endpoint to the older RSF endpoints.
    pub fn push_rsf_old_endpoint(self, endpoint: Endpoint) -> (b: Self)
        ensures
            b.id() == self.id(),
            b.s3_id() == self.s3_id(),
            forall|s: ServiceName| #[trigger] b.endpoints_of(s) == self.endpoints_of(s),
            forall|s: ServiceName| #[trigger] b.old_endpoints_of(s) == if s == ServiceName::Rsf {
                self.old_endpoints_of(s).push(endpoint)
            } else {
                self.old_endpoints_of(s)
            },
    {
        self.push_endpoint(ServiceName::Rsf, true, endpoint)
    }

    /// Appends an endpoint to the API endpoints.
    pub fn push_api_endpoint(self, endpoint: Endpoint) -> (b: Self)
        ensures
            b.id() == self.id(),
            b.s3_id() == self.s3_id(),
            forall|s: ServiceName| #[trigger] b.endpoints_of(s) == if s == ServiceName::Api {
                self.endpoints_of(s).push(endpoint)
            } else {
                self.endpoints_of(s)
            },
            forall|s: ServiceName| #[trigger] b.old_endpoints_of(s) == self.old_endpoints_of(s),
    {
        self.push_endpoint(ServiceName::Api, false, endpoint)
    }

    /// Appends an endpoint to the older API endpoints.
    pub fn push_api_old_endpoint(self, endpoint: Endpoint) -> (b: Self)
        ensures
            b.id() == self.id(),
            b.s3_id() == self.s3_id(),
            forall|s: ServiceName| #[trigger] b.endpoints_of(s) == self.endpoints_of(s),
            forall|s: ServiceName| #[trigger] b.old_endpoints_of(s) == if s == ServiceName::Api {
                self.old_endpoints_of(s).push(endpoint)
            } else {
                self.old_endpoints_of(s)
            },
    {
        self.push_endpoint(ServiceName::Api, true, endpoint)
    }

    /// Appends an endpoint to the S3 endpoints.
    pub fn push_s3_endpoint(self, endpoint: Endpoint) -> (b: Self)
        ensures
            b.id() == self.id(),
            b.s3_id() == self.s3_id(),
            forall|s: ServiceName| #[trigger] b.endpoints_of(s) == if s == ServiceName::S3 {
                self.endpoints_of(s).push(endpoint)
            } else {
                self.endpoints_of(s)
            },
            forall|s: ServiceName| #[trigger] b.old_endpoints_of(s) == self.old_endpoints_of(s),
    {
        self.push_endpoint(ServiceName::S3, false, endpoint)
    }

    /// Appends an endpoint to the older S3 endpoints.
    pub fn push_s3_old_endpoint(self, endpoint: Endpoint) -> (b: Self)
        ensures
            b.id() == self.id(),
            b.s3_id() == self.s3_id(),
            forall|s: ServiceName| #[trigger] b.endpoints_of(s) == self.endpoints_of(s),
            forall|s: ServiceName| #[trigger] b.old_endpoints_of(s) == if s == ServiceName::S3 {
                self.old_endpoints_of(s).push(endpoint)
            } else {
                self.old_endpoints_of(s)
            },
    {
        self.push_endpoint(ServiceName::S3, true, endpoint)
    }

    /// The region: its IDs and every endpoint pushed, in the order pushed.
    pub fn build(self) -> (r: Region)
        ensures
            r.id() == self.id(),
            r.s3_id() == self.s3_id(),
            forall|s: ServiceName| r.endpoints_of(s) == self.endpoints_of(s) && r.old_endpoints_of(s) == self.old_endpoints_of(s),
    {
        Region {
            region_id: self.region_id,
            s3_region_id: self.s3_region_id,
            up: Endpoints::new(self.up, self.up_old),
            io: Endpoints::new(self.io, self.io_old),
            uc: Endpoints::new(self.uc, self.uc_old),
            rs: Endpoints::new(self.rs, self.rs_old),
            rsf: Endpoints::new(self.rsf, self.rsf_old),
            api: Endpoints::new(self.api, self.api_old),
            s3: Endpoints::new(self.s3, self.s3_old),
        }
    }
}

/// A region provider that always gives the same regions.
#[derive(Debug)]
pub struct StaticRegionProvider {
    regions: Vec<Region>,
}

impl StaticRegionProvider {
    /// The regions.
    pub closed spec fn all(self) -> Seq<Region> {
        self.regions@
    }

    /// A provider of `regions` (at least one).
    pub fn new(regions: Vec<Region>) -> (p: Self)
        requires
            regions.len() > 0,
        ensures
            p.all() == regions@,
    {
        StaticRegionProvider { regions }
    }

    #[verifier::type_invariant]
    spec fn has_a_region(self) -> bool {
        self.regions@.len() > 0
    }

    /// The first region, copied.
    pub fn get(&self) -> (r: Region)
        ensures
            self.all().len() > 0,
            r.id() == self.all()[0].id(),
            r.s3_id() == self.all()[0].s3_id(),
            forall|s: ServiceName| r.endpoints_of(s) == self.all()[0].endpoints_of(s) && r.old_endpoints_of(s) == self.all()[0].old_endpoints_of(s),
    {
        proof {
            use_type_invariant(self);
        }
        self.regions[0].duplicate()
    }

    /// All the regions, copied, in order.
    pub fn get_all(&self) -> (r: Vec<Region>)
        ensures
            r.len() == self.all().len(),
            forall|i: int| 0 <= i < r.len() ==> {
                &&& (#[trigger] r@[i]).id() == self.all()[i].id()
                &&& r@[i].s3_id() == self.all()[i].s3_id()
                &&& forall|s: ServiceName| r@[i].endpoints_of(s) == self.all()[i].endpoints_of(s) && r@[i].old_endpoints_of(s) == self.all()[i].old_endpoints_of(s)
            },
    {
        let mut r: Vec<Region> = Vec::new();
        let mut i: usize = 0;
        while i < self.regions.len()
            invariant
                i <= self.regions.len(),
                r.len() == i,
                forall|j: int| 0 <= j < i ==> {
                    &&& (#[trigger] r@[j]).id() == self.all()[j].id()
                    &&& r@[j].s3_id() == self.all()[j].s3_id()
                    &&& forall|s: ServiceName| r@[j].endpoints_of(s) == self.all()[j].endpoints_of(s) && r@[j].old_endpoints_of(s) == self.all()[j].old_endpoints_of(s)
                },
            decreases self.regions.len() - i,
        {
            r.push(self.regions[i].duplicate());
            i = i + 1;
        }
        r
    }
}

} // verus!
