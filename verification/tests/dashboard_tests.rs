use validator_dashboard::dashboard::initialize;
use validator_dashboard::dashboard::set_alert_threshold;
use validator_dashboard::dashboard::update_validator_stats;
use validator_dashboard::dashboard::AlertTriggered;
use validator_dashboard::dashboard::DashboardError;
use validator_dashboard::dashboard::Initialize;
use validator_dashboard::dashboard::SetThreshold;
use validator_dashboard::dashboard::UpdateStats;
use validator_dashboard::dashboard::DEFAULT_ALERT_THRESHOLD;
use validator_dashboard::identity::Identity;

fn ident(b: u8) -> Identity {
    Identity { bytes: [b; 32] }
}

#[test]
fn initialize_sets_defaults() {
    let d = initialize(&Initialize { authority: ident(1) });
    assert_eq!(d.authority, ident(1));
    assert_eq!(d.alert_threshold, 95);
    assert_eq!(d.alert_threshold, DEFAULT_ALERT_THRESHOLD);
    assert_eq!(d.uptime, 0);
    assert_eq!(d.stake_amount, 0);
    assert_eq!(d.commission, 0);
    assert_eq!(d.rewards, 0);
    assert_eq!(d.last_updated, 0);
}

#[test]
fn update_scenario_overwrites_and_alerts() {
    let auth = ident(1);
    let key = ident(9);
    let d = initialize(&Initialize { authority: auth });
    let mut ctx = UpdateStats { dashboard: d, dashboard_key: key, authority: auth };
    let now: i64 = 1_700_000_000;
    let r = update_validator_stats(&mut ctx, 90, 1000, 5, 50, now);
    assert_eq!(
        r,
        Ok(Some(AlertTriggered { validator: key, uptime: 90, threshold: 95 }))
    );
    assert_eq!(ctx.dashboard.uptime, 90);
    assert_eq!(ctx.dashboard.stake_amount, 1000);
    assert_eq!(ctx.dashboard.commission, 5);
    assert_eq!(ctx.dashboard.rewards, 50);
    assert_eq!(ctx.dashboard.last_updated, now);
    assert_eq!(ctx.dashboard.alert_threshold, 95);
    assert_eq!(ctx.dashboard.authority, auth);
}

#[test]
fn update_at_threshold_emits_nothing() {
    let auth = ident(2);
    let d = initialize(&Initialize { authority: auth });
    let mut ctx = UpdateStats { dashboard: d, dashboard_key: ident(9), authority: auth };
    let r = update_validator_stats(&mut ctx, 95, 7, 3, 1, 10);
    assert_eq!(r, Ok(None));
    assert_eq!(ctx.dashboard.uptime, 95);
}

#[test]
fn update_above_threshold_emits_nothing() {
    let auth = ident(2);
    let d = initialize(&Initialize { authority: auth });
    let mut ctx = UpdateStats { dashboard: d, dashboard_key: ident(9), authority: auth };
    let r = update_validator_stats(&mut ctx, 100, 7, 3, 1, 10);
    assert_eq!(r, Ok(None));
}

#[test]
fn update_below_custom_threshold_carries_that_threshold() {
    let auth = ident(4);
    let key = ident(8);
    let d = initialize(&Initialize { authority: auth });
    let mut tctx = SetThreshold { dashboard: d, authority: auth };
    assert_eq!(set_alert_threshold(&mut tctx, 50), Ok(()));
    let mut ctx = UpdateStats { dashboard: tctx.dashboard, dashboard_key: key, authority: auth };
    let r = update_validator_stats(&mut ctx, 49, 1, 1, 1, 1);
    assert_eq!(
        r,
        Ok(Some(AlertTriggered { validator: key, uptime: 49, threshold: 50 }))
    );
    let r2 = update_validator_stats(&mut ctx, 50, 1, 1, 1, 2);
    assert_eq!(r2, Ok(None));
}

#[test]
fn unauthorized_update_changes_nothing() {
    let auth = ident(1);
    let intruder = ident(3);
    let d = initialize(&Initialize { authority: auth });
    let mut ctx = UpdateStats { dashboard: d, dashboard_key: ident(9), authority: intruder };
    let before = ctx.dashboard;
    let r = update_validator_stats(&mut ctx, 10, 20, 30, 40, 50);
    assert_eq!(r, Err(DashboardError::Unauthorized));
    assert_eq!(ctx.dashboard, before);
}

#[test]
fn unauthorized_threshold_change_changes_nothing() {
    let auth = ident(1);
    let intruder = ident(3);
    let d = initialize(&Initialize { authority: auth });
    let mut ctx = SetThreshold { dashboard: d, authority: intruder };
    let before = ctx.dashboard;
    let r = set_alert_threshold(&mut ctx, 10);
    assert_eq!(r, Err(DashboardError::Unauthorized));
    assert_eq!(ctx.dashboard, before);
}

#[test]
fn set_threshold_twice_equals_once() {
    let auth = ident(5);
    let d = initialize(&Initialize { authority: auth });
    let mut once = SetThreshold { dashboard: d, authority: auth };
    assert_eq!(set_alert_threshold(&mut once, 80), Ok(()));
    let mut twice = SetThreshold { dashboard: d, authority: auth };
    assert_eq!(set_alert_threshold(&mut twice, 80), Ok(()));
    assert_eq!(set_alert_threshold(&mut twice, 80), Ok(()));
    assert_eq!(once.dashboard, twice.dashboard);
    assert_eq!(once.dashboard.alert_threshold, 80);
}

#[test]
fn set_threshold_accepts_any_value() {
    let auth = ident(6);
    let d = initialize(&Initialize { authority: auth });
    let mut ctx = SetThreshold { dashboard: d, authority: auth };
    assert_eq!(set_alert_threshold(&mut ctx, 0), Ok(()));
    assert_eq!(ctx.dashboard.alert_threshold, 0);
    assert_eq!(set_alert_threshold(&mut ctx, u64::MAX), Ok(()));
    assert_eq!(ctx.dashboard.alert_threshold, u64::MAX);
}
