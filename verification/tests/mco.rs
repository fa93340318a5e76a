use rtc_hal::mco::{MCODiv, MCOSel, Pin};

struct Probe<'a> {
    handed_over: &'a mut bool,
}

impl<'a> Pin for Probe<'a> {
    fn into_mco(self) {
        *self.handed_over = true;
    }
}

#[test]
fn division_codes() {
    assert_eq!(MCODiv::Div1.bits(), 0);
    assert_eq!(MCODiv::Div2.bits(), 1);
    assert_eq!(MCODiv::Div4.bits(), 2);
    assert_eq!(MCODiv::Div8.bits(), 3);
    assert_eq!(MCODiv::Div16.bits(), 4);
}

#[test]
fn clock_selection_codes() {
    assert_eq!(MCOSel::Disabled.bits(), 0);
    assert_eq!(MCOSel::Sysclk.bits(), 1);
    assert_eq!(MCOSel::Hsi.bits(), 2);
    assert_eq!(MCOSel::Msi.bits(), 3);
    assert_eq!(MCOSel::Hse.bits(), 4);
    assert_eq!(MCOSel::Pll.bits(), 5);
    assert_eq!(MCOSel::Lsi.bits(), 6);
    assert_eq!(MCOSel::Lse.bits(), 7);
}

#[test]
fn a_pin_can_be_handed_over() {
    let mut handed_over = false;
    Probe { handed_over: &mut handed_over }.into_mco();
    assert!(handed_over);
}
