use alloy::primitives::keccak256;
use erc8183::hooks::{SEL_COMPLETE, SEL_FUND, SEL_REJECT, SEL_SET_BUDGET, SEL_SET_PROVIDER, SEL_SUBMIT};

fn selector(signature: &str) -> [u8; 4] {
    let h = keccak256(signature.as_bytes());
    [h[0], h[1], h[2], h[3]]
}

#[test]
fn hook_selectors_match_core_function_signatures() {
    assert_eq!(SEL_SET_PROVIDER, selector("setProvider(uint256,address,bytes)"));
    assert_eq!(SEL_SET_BUDGET, selector("setBudget(uint256,uint256,bytes)"));
    assert_eq!(SEL_FUND, selector("fund(uint256,uint256,bytes)"));
    assert_eq!(SEL_SUBMIT, selector("submit(uint256,bytes32,bytes)"));
    assert_eq!(SEL_COMPLETE, selector("complete(uint256,bytes32,bytes)"));
    assert_eq!(SEL_REJECT, selector("reject(uint256,bytes32,bytes)"));
}
