use azul::css::CssProperty;
use azul::css::CssPropertyType;
use azul::css_values::AzLayoutDisplay;
use azul::css_values::AzLayoutDisplayValue;
use azul::css_values::AzLayoutWidth;
use azul::css_values::AzLayoutWidthValue;
use azul::css_values::AzSizeMetric;
use azul::css_values::AzStyleTextColor;
use azul::css_values::AzStyleTextColorValue;
use azul::css_values::ColorU;
use azul::css_values::FloatValue;
use azul::css_values::PixelValue;
use azul::css_values::PixelValueNoPercent;

#[test]
fn constructors_wrap_exact_values() {
    let w = AzLayoutWidth { inner: PixelValue::const_px(10) };
    let p = CssProperty::width(w);
    assert_eq!(p, CssProperty::Width(AzLayoutWidthValue::Exact(w)));
    assert_eq!(p.get_type(), CssPropertyType::Width);

    let c = AzStyleTextColor { inner: ColorU { r: 1, g: 2, b: 3, a: 4 } };
    let p = CssProperty::text_color(c);
    assert_eq!(p, CssProperty::TextColor(AzStyleTextColorValue::Exact(c)));
    assert_eq!(p.get_type(), CssPropertyType::TextColor);
}

#[test]
fn keyword_constructors_pick_the_right_variant() {
    assert_eq!(
        CssProperty::none(CssPropertyType::Width),
        CssProperty::Width(AzLayoutWidthValue::NoValue)
    );
    assert_eq!(
        CssProperty::auto(CssPropertyType::Width),
        CssProperty::Width(AzLayoutWidthValue::Auto)
    );
    assert_eq!(
        CssProperty::initial(CssPropertyType::Display),
        CssProperty::Display(AzLayoutDisplayValue::Initial)
    );
    assert_eq!(
        CssProperty::inherit(CssPropertyType::Display),
        CssProperty::Display(AzLayoutDisplayValue::Inherit)
    );
}

#[test]
fn every_background_form_gets_the_image_key() {
    let p = CssProperty::none(CssPropertyType::Background);
    assert_eq!(p.get_type(), CssPropertyType::BackgroundImage);
    let p = CssProperty::none(CssPropertyType::BackgroundColor);
    assert_eq!(p.get_type(), CssPropertyType::BackgroundImage);
    let p = CssProperty::none(CssPropertyType::BackgroundImage);
    assert_eq!(p.get_type(), CssPropertyType::BackgroundImage);
}

#[test]
fn accessors_answer_only_their_own_variant() {
    let w = AzLayoutWidth { inner: PixelValue::const_px(7) };
    let p = CssProperty::width(w);
    assert_eq!(p.as_width(), Some(&AzLayoutWidthValue::Exact(w)));
    assert_eq!(p.as_height(), None);
    assert_eq!(p.as_text_color(), None);

    let d = CssProperty::display(AzLayoutDisplay::Flex);
    assert_eq!(d.as_display(), Some(&AzLayoutDisplayValue::Exact(AzLayoutDisplay::Flex)));
    assert_eq!(d.as_float(), None);
}

#[test]
fn fixed_point_numbers_carry_thousandths() {
    assert_eq!(FloatValue::const_new(2).number, 2000);
    assert_eq!(FloatValue::const_new(-3).number, -3000);
    assert_eq!(FloatValue::const_new(0).number, 0);

    let px = PixelValue::const_px(10);
    assert_eq!(px.metric, AzSizeMetric::Px);
    assert_eq!(px.number.number, 10_000);

    let em = PixelValue::const_em(2);
    assert_eq!(em.metric, AzSizeMetric::Em);
    assert_eq!(em.number.number, 2000);

    let pt = PixelValue::const_pt(1);
    assert_eq!(pt.metric, AzSizeMetric::Pt);

    let pc = PixelValue::const_percent(50);
    assert_eq!(pc.metric, AzSizeMetric::Percent);
    assert_eq!(pc.number.number, 50_000);

    let z = PixelValue::zero();
    assert_eq!(z.metric, AzSizeMetric::Px);
    assert_eq!(z.number.number, 0);

    let np = PixelValueNoPercent::const_px(4);
    assert_eq!(np.inner.number.number, 4000);
    assert_eq!(PixelValueNoPercent::zero().inner.number.number, 0);
    assert_eq!(PixelValueNoPercent::const_em(1).inner.metric, AzSizeMetric::Em);
    assert_eq!(PixelValueNoPercent::const_pt(1).inner.metric, AzSizeMetric::Pt);
}
