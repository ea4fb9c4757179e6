use qiniu_sdk::endpoint::{Endpoint, IpAddr};
use qiniu_sdk::region::{Region, ServiceName, StaticRegionProvider};

fn domain(d: &str) -> Endpoint {
    Endpoint::new_from_domain(d.to_owned())
}

fn sample_region(id: &str) -> Region {
    Region::builder(id.to_owned())
        .s3_region_id(format!("{}-s3", id))
        .push_up_endpoint(domain("up.qiniup.com"))
        .push_up_endpoint(domain("upload.qiniup.com"))
        .push_up_old_endpoint(domain("up.qbox.me"))
        .push_io_endpoint(domain("iovip.qbox.me"))
        .push_uc_endpoint(domain("uc.qbox.me"))
        .push_rs_endpoint(domain("rs.qbox.me"))
        .push_rsf_endpoint(domain("rsf.qbox.me"))
        .push_api_endpoint(domain("api.qiniu.com"))
        .push_s3_endpoint(Endpoint::new_from_socket_addr(IpAddr::V4(10, 0, 0, 1), 9000))
        .build()
}

#[test]
fn region_keeps_what_was_pushed_in_order() {
    let r = sample_region("z0");
    assert_eq!(r.region_id(), "z0");
    assert_eq!(r.s3_region_id(), "z0-s3");
    assert_eq!(r.up_endpoints(), &[domain("up.qiniup.com"), domain("upload.qiniup.com")][..]);
    assert_eq!(r.up_old_endpoints(), &[domain("up.qbox.me")][..]);
    assert_eq!(r.io_endpoints(), &[domain("iovip.qbox.me")][..]);
    assert!(r.io_old_endpoints().is_empty());
    assert_eq!(r.uc_endpoints(), &[domain("uc.qbox.me")][..]);
    assert_eq!(r.rs_endpoints(), &[domain("rs.qbox.me")][..]);
    assert_eq!(r.rsf_endpoints(), &[domain("rsf.qbox.me")][..]);
    assert_eq!(r.api_endpoints(), &[domain("api.qiniu.com")][..]);
    assert_eq!(
        r.s3_endpoints(),
        &[Endpoint::new_from_socket_addr(IpAddr::V4(10, 0, 0, 1), 9000)][..]
    );
    assert_eq!(r.service_endpoints(ServiceName::Up).endpoints().len(), 2);
    assert_eq!(r.service_endpoints(ServiceName::Up).old_endpoints().len(), 1);
}

#[test]
fn static_region_provider_gives_first_and_all() {
    let p = StaticRegionProvider::new(vec![sample_region("z0"), sample_region("z1")]);
    assert_eq!(p.get().region_id(), "z0");
    let all = p.get_all();
    assert_eq!(all.len(), 2);
    assert_eq!(all[0].region_id(), "z0");
    assert_eq!(all[1].region_id(), "z1");
    assert_eq!(all[1].up_endpoints(), sample_region("z1").up_endpoints());
}
