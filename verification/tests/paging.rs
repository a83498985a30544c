use staking_contract::paging::collect_paginated;

#[test]
fn pages_skip_missing_records_and_stop_at_the_limit() {
    let present = vec![true, false, true, true, false, true];
    assert_eq!(collect_paginated(&present, 0, 2), vec![0, 2]);
    assert_eq!(collect_paginated(&present, 1, 3), vec![2, 3, 5]);
    assert_eq!(collect_paginated(&present, 4, 10), vec![5]);
    assert_eq!(collect_paginated(&present, 6, 10), Vec::<u64>::new());
    assert_eq!(collect_paginated(&present, 100, 10), Vec::<u64>::new());
    assert_eq!(collect_paginated(&present, 0, 0), Vec::<u64>::new());
}
