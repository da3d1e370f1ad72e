use merchant::components::{
    render_component, FrameType, IntroductionScreen, RequireResize, SceneFrame, ScreenCenteredText, SplashScreen,
};
use merchant::components::FRAME_WIDTH;
use merchant::location::Location;

#[test]
fn simple_empty_inside() {
    assert_eq!(
        render_component(SceneFrame(FrameType::SimpleEmptyInside)).unwrap(),
        r#"
---------------------------------------------------------------------------------------------------
|                                                                                                 |
|                                                                                                 |
|                                                                                                 |
|                                                                                                 |
|                                                                                                 |
|                                                                                                 |
|                                                                                                 |
|                                                                                                 |
|                                                                                                 |
|                                                                                                 |
|                                                                                                 |
|                                                                                                 |
|                                                                                                 |
|                                                                                                 |
|                                                                                                 |
|                                                                                                 |
|                                                                                                 |
|                                                                                                 |
|                                                                                                 |
|                                                                                                 |
|                                                                                                 |
|                                                                                                 |
|                                                                                                 |
|                                                                                                 |
|                                                                                                 |
|                                                                                                 |
|                                                                                                 |
|                                                                                                 |
|                                                                                                 |
|                                                                                                 |
|                                                                                                 |
---------------------------------------------------------------------------------------------------
"#
            .trim()
    );
}

#[test]
fn frame_location_london() {
    assert_eq!(
        render_component(SceneFrame(FrameType::Location(Location::London))).unwrap(),
        r#"
'~.~'~.~'~.~'~.~'~.~'~.~'~.~'~.~'~.~'~.~'~.~'~.~'~.~'~.~'~.~'~.~'~.~'~.~'~.~'~.~'~.~'~.~'~.~'~.~'~.
)                                                                                                 (
|                                                                                                 |
(                                                                                                 )
|                                                                                                 |
)                                                                                                 (
|                                                                                                 |
(                                                                                                 )
|                                                                                                 |
)                                                                                                 (
|                                                                                                 |
(                                                                                                 )
|                                                                                                 |
)                                                                                                 (
|                                                                                                 |
(                                                                                                 )
|                                                                                                 |
)                                                                                                 (
|                                                                                                 |
('~~.~~'~~.~~'~~.~~'~~.~~'~~.~~'~~.~~'~~.~~'~~.~~'~~.~~'~~.~~'~~.~~'~~.~~'~~.~~'~~.~~'~~.~~'~~.~~')
|                                                                                                 |
)                                                                                                 (
|                                                                                                 |
(                                                                                                 )
|                                                                                                 |
)                                                                                                 (
|                                                                                                 |
(                                                                                                 )
|                                                                                                 |
)                                                                                                 (
|                                                                                                 |
(                                                                                                 )
.~'~.~'~.~'~.~'~.~'~.~'~.~'~.~'~.~'~.~'~.~'~.~'~.~'~.~'~.~'~.~'~.~'~.~'~.~'~.~'~.~'~.~'~.~'~.~'~.~'
"#
            .trim()
    );
}

#[test]
fn location_savannah() {
    assert_eq!(
        render_component(SceneFrame(FrameType::Location(Location::Savannah))).unwrap(),
        r#"
┴┬┴┬┴┬┴┬┴┬┴┬┴┬┴┬┴┬┴┬┴┬┴┬┴┬┴┬┴┬┴┬┴┬┴┬┴┬┴┬┴┬┴┬┴┬┴┬┴┬┴┬┴┬┴┬┴┬┴┬┴┬┴┬┴┬┴┬┴┬┴┬┴┬┴┬┴┬┴┬┴┬┴┬┴┬┴┬┴┬┴┬┴┬┴┬┴┬┴
├                                                                                                 ┤
┤                                                                                                 ├
├                                                                                                 ┤
┤                                                                                                 ├
├                                                                                                 ┤
┤                                                                                                 ├
├                                                                                                 ┤
┤                                                                                                 ├
├                                                                                                 ┤
┤                                                                                                 ├
├                                                                                                 ┤
┤                                                                                                 ├
├                                                                                                 ┤
┤                                                                                                 ├
├                                                                                                 ┤
┤                                                                                                 ├
├                                                                                                 ┤
┤                                                                                                 ├
├─┼─┼─┼─┼─┼─┼─┼─┼─┼─┼─┼─┼─┼─┼─┼─┼─┼─┼─┼─┼─┼─┼─┼─┼─┼─┼─┼─┼─┼─┼─┼─┼─┼─┼─┼─┼─┼─┼─┼─┼─┼─┼─┼─┼─┼─┼─┼─┼─┤
┤                                                                                                 ├
├                                                                                                 ┤
┤                                                                                                 ├
├                                                                                                 ┤
┤                                                                                                 ├
├                                                                                                 ┤
┤                                                                                                 ├
├                                                                                                 ┤
┤                                                                                                 ├
├                                                                                                 ┤
┤                                                                                                 ├
├                                                                                                 ┤
┬┴┬┴┬┴┬┴┬┴┬┴┬┴┬┴┬┴┬┴┬┴┬┴┬┴┬┴┬┴┬┴┬┴┬┴┬┴┬┴┬┴┬┴┬┴┬┴┬┴┬┴┬┴┬┴┬┴┬┴┬┴┬┴┬┴┬┴┬┴┬┴┬┴┬┴┬┴┬┴┬┴┬┴┬┴┬┴┬┴┬┴┬┴┬┴┬┴┬
"#
            .trim()
    );
}

#[test]
fn location_lisbon() {
    assert_eq!(
        render_component(SceneFrame(FrameType::Location(Location::Lisbon))).unwrap(),
        r#"
▚▞▚▞▚▞▚▞▚▞▚▞▚▞▚▞▚▞▚▞▚▞▚▞▚▞▚▞▚▞▚▞▚▞▚▞▚▞▚▞▚▞▚▞▚▞▚▞▚▞▚▞▚▞▚▞▚▞▚▞▚▞▚▞▚▞▚▞▚▞▚▞▚▞▚▞▚▞▚▞▚▞▚▞▚▞▚▞▚▞▚▞▚▞▚▞▚▞▚
▚                                                                                                 ▞
▞                                                                                                 ▚
▚                                                                                                 ▞
▞                                                                                                 ▚
▚                                                                                                 ▞
▞                                                                                                 ▚
▚                                                                                                 ▞
▞                                                                                                 ▚
▚                                                                                                 ▞
▞                                                                                                 ▚
▚                                                                                                 ▞
▞                                                                                                 ▚
▚                                                                                                 ▞
▞                                                                                                 ▚
▚                                                                                                 ▞
▞                                                                                                 ▚
▚                                                                                                 ▞
▞                                                                                                 ▚
▚▄█▀█▄█▀█▄█▀█▄█▀█▄█▀█▄█▀█▄█▀█▄█▀█▄█▀█▄█▀█▄█▀█▄█▀█▄█▀█▄█▀█▄█▀█▄█▀█▄█▀█▄█▀█▄█▀█▄█▀█▄█▀█▄█▀█▄█▀█▄█▀█▄▞
▞                                                                                                 ▚
▚                                                                                                 ▞
▞                                                                                                 ▚
▚                                                                                                 ▞
▞                                                                                                 ▚
▚                                                                                                 ▞
▞                                                                                                 ▚
▚                                                                                                 ▞
▞                                                                                                 ▚
▚                                                                                                 ▞
▞                                                                                                 ▚
▚                                                                                                 ▞
▞▚▞▚▞▚▞▚▞▚▞▚▞▚▞▚▞▚▞▚▞▚▞▚▞▚▞▚▞▚▞▚▞▚▞▚▞▚▞▚▞▚▞▚▞▚▞▚▞▚▞▚▞▚▞▚▞▚▞▚▞▚▞▚▞▚▞▚▞▚▞▚▞▚▞▚▞▚▞▚▞▚▞▚▞▚▞▚▞▚▞▚▞▚▞▚▞▚▞
"#
            .trim()
    );
}

#[test]
fn location_amsterdam() {
    assert_eq!(
        render_component(SceneFrame(FrameType::Location(Location::Amsterdam))).unwrap(),
        r#"
▷◁▷◁▷◁▷◁▷◁▷◁▷◁▷◁▷◁▷◁▷◁▷◁▷◁▷◁▷◁▷◁▷◁▷◁▷◁▷◁▷◁▷◁▷◁▷◁▷◁▷◁▷◁▷◁▷◁▷◁▷◁▷◁▷◁▷◁▷◁▷◁▷◁▷◁▷◁▷◁▷◁▷◁▷◁▷◁▷◁▷◁▷◁▷◁▷◁▷
◊                                                                                                 ◊
◊                                                                                                 ◊
◊                                                                                                 ◊
◊                                                                                                 ◊
◊                                                                                                 ◊
◊                                                                                                 ◊
◊                                                                                                 ◊
◊                                                                                                 ◊
◊                                                                                                 ◊
◊                                                                                                 ◊
◊                                                                                                 ◊
◊                                                                                                 ◊
◊                                                                                                 ◊
◊                                                                                                 ◊
◊                                                                                                 ◊
◊                                                                                                 ◊
◊                                                                                                 ◊
◊                                                                                                 ◊
◊◊◁▷◊◁▷◊◁▷◊◁▷◊◁▷◊◁▷◊◁▷◊◁▷◊◁▷◊◁▷◊◁▷◊◁▷◊◁▷◊◁▷◊◁▷◊◁▷◊◁▷◊◁▷◊◁▷◊◁▷◊◁▷◊◁▷◊◁▷◊◁▷◊◁▷◊◁▷◊◁▷◊◁▷◊◁▷◊◁▷◊◁▷◊◁▷◊◊
◊                                                                                                 ◊
◊                                                                                                 ◊
◊                                                                                                 ◊
◊                                                                                                 ◊
◊                                                                                                 ◊
◊                                                                                                 ◊
◊                                                                                                 ◊
◊                                                                                                 ◊
◊                                                                                                 ◊
◊                                                                                                 ◊
◊                                                                                                 ◊
◊                                                                                                 ◊
◁▷◁▷◁▷◁▷◁▷◁▷◁▷◁▷◁▷◁▷◁▷◁▷◁▷◁▷◁▷◁▷◁▷◁▷◁▷◁▷◁▷◁▷◁▷◁▷◁▷◁▷◁▷◁▷◁▷◁▷◁▷◁▷◁▷◁▷◁▷◁▷◁▷◁▷◁▷◁▷◁▷◁▷◁▷◁▷◁▷◁▷◁▷◁▷◁▷◁
"#
            .trim()
    );
}

#[test]
fn location_capetown() {
    assert_eq!(
        render_component(SceneFrame(FrameType::Location(Location::CapeTown))).unwrap(),
        r#"
◗●◖◗●◖◗●◖◗●◖◗●◖◗●◖◗●◖◗●◖◗●◖◗●◖◗●◖◗●◖◗●◖◗●◖◗●◖◗●◖◗●◖◗●◖◗●◖◗●◖◗●◖◗●◖◗●◖◗●◖◗●◖◗●◖◗●◖◗●◖◗●◖◗●◖◗●◖◗●◖◗●◖
○                                                                                                 ○
●                                                                                                 ●
○                                                                                                 ○
●                                                                                                 ●
○                                                                                                 ○
●                                                                                                 ●
○                                                                                                 ○
●                                                                                                 ●
○                                                                                                 ○
●                                                                                                 ●
○                                                                                                 ○
●                                                                                                 ●
○                                                                                                 ○
●                                                                                                 ●
○                                                                                                 ○
●                                                                                                 ●
○                                                                                                 ○
●                                                                                                 ●
○◐◓◑◒◐◓◑◒◐◓◑◒◐◓◑◒◐◓◑◒◐◓◑◒◐◓◑◒◐◓◑◒◐◓◑◒◐◓◑◒◐◓◑◒◐◓◑◒◐◓◑◒◐◓◑◒◐◓◑◒◐◓◑◒◐◓◑◒◐◓◑◒◐◓◑◒◐◓◑◒◐◓◑◒◐◓◑◒◐◓◑◒◐◓◑◒◐○
●                                                                                                 ●
○                                                                                                 ○
●                                                                                                 ●
○                                                                                                 ○
●                                                                                                 ●
○                                                                                                 ○
●                                                                                                 ●
○                                                                                                 ○
●                                                                                                 ●
○                                                                                                 ○
●                                                                                                 ●
○                                                                                                 ○
◖◗●◖◗●◖◗●◖◗●◖◗●◖◗●◖◗●◖◗●◖◗●◖◗●◖◗●◖◗●◖◗●◖◗●◖◗●◖◗●◖◗●◖◗●◖◗●◖◗●◖◗●◖◗●◖◗●◖◗●◖◗●◖◗●◖◗●◖◗●◖◗●◖◗●◖◗●◖◗●◖◗●
"#
            .trim()
    );
}

#[test]
fn frame_location_venice() {
    assert_eq!(
        render_component(SceneFrame(FrameType::Location(Location::Venice))).unwrap(),
        r#"
╱╳╲╳╱╳╲╳╱╳╲╳╱╳╲╳╱╳╲╳╱╳╲╳╱╳╲╳╱╳╲╳╱╳╲╳╱╳╲╳╱╳╲╳╱╳╲╳╱╳╲╳╱╳╲╳╱╳╲╳╱╳╲╳╱╳╲╳╱╳╲╳╱╳╲╳╱╳╲╳╱╳╲╳╱╳╲╳╱╳╲╳╱╳╲╳╱╳╲
╳                                                                                                 ╳
╳                                                                                                 ╳
╳                                                                                                 ╳
╳                                                                                                 ╳
╳                                                                                                 ╳
╳                                                                                                 ╳
╳                                                                                                 ╳
╳                                                                                                 ╳
╳                                                                                                 ╳
╳                                                                                                 ╳
╳                                                                                                 ╳
╳                                                                                                 ╳
╳                                                                                                 ╳
╳                                                                                                 ╳
╳                                                                                                 ╳
╳                                                                                                 ╳
╳                                                                                                 ╳
╳                                                                                                 ╳
╳╲╱╱╲╲╱╱╲╲╱╱╲╲╱╱╲╲╱╱╲╲╱╱╲╲╱╱╲╲╱╱╲╲╱╱╲╲╱╱╲╲╱╱╲╲╱╱╲╲╱╱╲╲╱╱╲╲╱╱╲╲╱╱╲╲╱╱╲╲╱╱╲╲╱╱╲╲╱╱╲╲╱╱╲╲╱╱╲╲╱╱╲╲╱╱╲╲╳
╳                                                                                                 ╳
╳                                                                                                 ╳
╳                                                                                                 ╳
╳                                                                                                 ╳
╳                                                                                                 ╳
╳                                                                                                 ╳
╳                                                                                                 ╳
╳                                                                                                 ╳
╳                                                                                                 ╳
╳                                                                                                 ╳
╳                                                                                                 ╳
╳                                                                                                 ╳
╲╳╱╳╲╳╱╳╲╳╱╳╲╳╱╳╲╳╱╳╲╳╱╳╲╳╱╳╲╳╱╳╲╳╱╳╲╳╱╳╲╳╱╳╲╳╱╳╲╳╱╳╲╳╱╳╲╳╱╳╲╳╱╳╲╳╱╳╲╳╱╳╲╳╱╳╲╳╱╳╲╳╱╳╲╳╱╳╲╳╱╳╲╳╱╳╲╳╱
"#
            .trim()
    );
}

#[test]
fn introduction_screen_location_london() {
    assert_eq!(
        render_component(IntroductionScreen { home: Location::London, starting_year: 1782 }).unwrap(),
        r#"
'~.~'~.~'~.~'~.~'~.~'~.~'~.~'~.~'~.~'~.~'~.~'~.~'~.~'~.~'~.~'~.~'~.~'~.~'~.~'~.~'~.~'~.~'~.~'~.~'~.
)                                                                                                 (
|                                                                                                 |
(                                                                                                 )
|                                                                                                 |
)                                        The year is 1782.                                        (
|                                                                                                 |
(                        Your father, a rich merchant captain from London,                        )
|                    is preparing to retire and he is looking for a successor.                    |
)                                                                                                 (
|                    He has issued a challenge to you: build a merchant empire                    |
(                 of your own to prove that you are worthy to carry on his legacy.                )
|                                                                                                 |
)                                                                                                 (
|                     You have three years to make as much money as possible.                     |
(                                                                                                 )
|                                                                                                 |
)                                                                                                 (
|                                                                                                 |
('~~.~~'~~.~~'~~.~~'~~.~~'~~.~~'~~.~~'~~.~~'~~.~~'~~.~~'~~.~~'~~.~~'~~.~~'~~.~~'~~.~~'~~.~~'~~.~~')
|                                                                                                 |
)                                                                                                 (
|                                                                                                 |
(                                                                                                 )
|                             Fair winds and following seas, captain.                             |
)                                                                                                 (
|                                                                                                 |
(                                    Press any key to continue                                    )
|                                                                                                 |
)                                                                                                 (
|                                                                                                 |
(                                                                                                 )
.~'~.~'~.~'~.~'~.~'~.~'~.~'~.~'~.~'~.~'~.~'~.~'~.~'~.~'~.~'~.~'~.~'~.~'~.~'~.~'~.~'~.~'~.~'~.~'~.~'
"#
            .trim()
    );
}

#[test]
fn introduction_screen_location_venice() {
    assert_eq!(
        render_component(IntroductionScreen { home: Location::Venice, starting_year: 1785 }).unwrap(),
        r#"
╱╳╲╳╱╳╲╳╱╳╲╳╱╳╲╳╱╳╲╳╱╳╲╳╱╳╲╳╱╳╲╳╱╳╲╳╱╳╲╳╱╳╲╳╱╳╲╳╱╳╲╳╱╳╲╳╱╳╲╳╱╳╲╳╱╳╲╳╱╳╲╳╱╳╲╳╱╳╲╳╱╳╲╳╱╳╲╳╱╳╲╳╱╳╲╳╱╳╲
╳                                                                                                 ╳
╳                                                                                                 ╳
╳                                                                                                 ╳
╳                                                                                                 ╳
╳                                        The year is 1785.                                        ╳
╳                                                                                                 ╳
╳                        Your father, a rich merchant captain from Venice,                        ╳
╳                    is preparing to retire and he is looking for a successor.                    ╳
╳                                                                                                 ╳
╳                    He has issued a challenge to you: build a merchant empire                    ╳
╳                 of your own to prove that you are worthy to carry on his legacy.                ╳
╳                                                                                                 ╳
╳                                                                                                 ╳
╳                     You have three years to make as much money as possible.                     ╳
╳                                                                                                 ╳
╳                                                                                                 ╳
╳                                                                                                 ╳
╳                                                                                                 ╳
╳╲╱╱╲╲╱╱╲╲╱╱╲╲╱╱╲╲╱╱╲╲╱╱╲╲╱╱╲╲╱╱╲╲╱╱╲╲╱╱╲╲╱╱╲╲╱╱╲╲╱╱╲╲╱╱╲╲╱╱╲╲╱╱╲╲╱╱╲╲╱╱╲╲╱╱╲╲╱╱╲╲╱╱╲╲╱╱╲╲╱╱╲╲╱╱╲╲╳
╳                                                                                                 ╳
╳                                                                                                 ╳
╳                                                                                                 ╳
╳                                                                                                 ╳
╳                             Fair winds and following seas, captain.                             ╳
╳                                                                                                 ╳
╳                                                                                                 ╳
╳                                    Press any key to continue                                    ╳
╳                                                                                                 ╳
╳                                                                                                 ╳
╳                                                                                                 ╳
╳                                                                                                 ╳
╲╳╱╳╲╳╱╳╲╳╱╳╲╳╱╳╲╳╱╳╲╳╱╳╲╳╱╳╲╳╱╳╲╳╱╳╲╳╱╳╲╳╱╳╲╳╱╳╲╳╱╳╲╳╱╳╲╳╱╳╲╳╱╳╲╳╱╳╲╳╱╳╲╳╱╳╲╳╱╳╲╳╱╳╲╳╱╳╲╳╱╳╲╳╱╳╲╳╱
"#
            .trim()
    );
}

#[test]
fn splash_screen_basic() {
    assert_eq!(
        render_component(SplashScreen()).unwrap(),
        r#"
---------------------------------------------------------------------------------------------------
|                                                                                                 |
|                                                                                                 |
|                                                                                                 |
|                            __  __               _                 _                             |
|                           |  \/  |             | |               | |                            |
|                           | \  / | ___ _ __ ___| |__   __ _ _ __ | |_                           |
|                           | |\/| |/ _ \ '__/ __| '_ \ / _` | '_ \| __|                          |
|                           | |  | |  __/ | | (__| | | | (_| | | | | |_                           |
|                           |_|  |_|\___|_|  \___|_| |_|\__,_|_| |_|\__|                          |
|                                                                                                 |
|                                                                                                 |
|                              A tribute to Drug Wars by samgqroberts                             |
|                                                                                                 |
|                                       www.samgqroberts.com                                      |
|                                                                                                 |
|                                                                                                 |
|                                                                                                 |
|                                                                                                 |
|                                                                                                 |
|                                                                                                 |
|                                                                                                 |
|                                                                                                 |
|                                                                                                 |
|                                                                                                 |
|                                      Press any key to begin                                     |
|                                                                                                 |
|                                                                                                 |
|                                                                                                 |
|                                    ctrl-c to quit at any time                                   |
|                                                                                                 |
|                                                                                                 |
---------------------------------------------------------------------------------------------------
"#
            .trim()
    );
}

#[test]
fn screen_centered_text_basic() {
        let s = "012345678901234567890123456789012345678901234567890123456789012345678901234567890123456789012345678".to_owned();
        assert_eq!(s.len(), FRAME_WIDTH as usize);
        assert_eq!(render_component(ScreenCenteredText::new(&[s.clone()], 0)).unwrap(), "012345678901234567890123456789012345678901234567890123456789012345678901234567890123456789012345678");
        let s = s[..s.len().saturating_sub(1)].to_owned();
        assert_eq!(render_component(ScreenCenteredText::new(&[s.clone()], 0)).unwrap(), " 01234567890123456789012345678901234567890123456789012345678901234567890123456789012345678901234567");
        let s = s[..s.len().saturating_sub(1)].to_owned();
        assert_eq!(render_component(ScreenCenteredText::new(&[s.clone()], 0)).unwrap(), " 0123456789012345678901234567890123456789012345678901234567890123456789012345678901234567890123456");
        let s = s[..s.len().saturating_sub(1)].to_owned();
        assert_eq!(render_component(ScreenCenteredText::new(&[s.clone()], 0)).unwrap(), "  012345678901234567890123456789012345678901234567890123456789012345678901234567890123456789012345");
        let s = s[..s.len().saturating_sub(1)].to_owned();
        assert_eq!(render_component(ScreenCenteredText::new(&[s.clone()], 0)).unwrap(), "  01234567890123456789012345678901234567890123456789012345678901234567890123456789012345678901234");
        let s = s[..s.len().saturating_sub(1)].to_owned();
        assert_eq!(render_component(ScreenCenteredText::new(&[s.clone()], 0)).unwrap(), "   0123456789012345678901234567890123456789012345678901234567890123456789012345678901234567890123");
        let s = s[..s.len().saturating_sub(1)].to_owned();
        assert_eq!(render_component(ScreenCenteredText::new(&[s.clone()], 0)).unwrap(), "   012345678901234567890123456789012345678901234567890123456789012345678901234567890123456789012");
        let s = s[..s.len().saturating_sub(1)].to_owned();
        assert_eq!(render_component(ScreenCenteredText::new(&[s.clone()], 0)).unwrap(), "    01234567890123456789012345678901234567890123456789012345678901234567890123456789012345678901");
        let s = s[..s.len().saturating_sub(1)].to_owned();
        assert_eq!(render_component(ScreenCenteredText::new(&[s.clone()], 0)).unwrap(), "    0123456789012345678901234567890123456789012345678901234567890123456789012345678901234567890");
        let s = s[..s.len().saturating_sub(1)].to_owned();
        assert_eq!(render_component(ScreenCenteredText::new(&[s.clone()], 0)).unwrap(), "     012345678901234567890123456789012345678901234567890123456789012345678901234567890123456789");
        let s = s[..s.len().saturating_sub(1)].to_owned();
        assert_eq!(render_component(ScreenCenteredText::new(&[s.clone()], 0)).unwrap(), "     01234567890123456789012345678901234567890123456789012345678901234567890123456789012345678");
        let s = s[..s.len().saturating_sub(1)].to_owned();
        assert_eq!(render_component(ScreenCenteredText::new(&[s.clone()], 0)).unwrap(), "      0123456789012345678901234567890123456789012345678901234567890123456789012345678901234567");
}

#[test]
fn require_resize_basic() {
    assert_eq!(
        render_component(RequireResize { current_x_cols: 5, current_y_cols: 5 }).unwrap(),
        "Please resize terminal to be at least 99 columns wide (currently 5) and 32 columns tall (currently 5)."
    );
}
