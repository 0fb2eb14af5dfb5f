//! The sixty-four hexagram names and the received text of the Zhouyi: one
//! judgment and six line statements per hexagram, each with a plain gloss.
//!
//! Each table is a single string of fields separated by `|`, ordered by
//! hexagram index (lower trigram in bits 0..3, upper trigram in bits 3..6, a
//! yang line counting as 1). The line tables hold six fields per hexagram,
//! bottom line first, so the statement of line `l` of hexagram `h` is field
//! `6 * h + l`.

use vstd::prelude::*;
use vstd::string::StrSliceExecFns;

verus! {

/// The fields of `s` between the separators `|`, in order; a string without
/// separator is a single field.
pub open spec fn split_fields(s: Seq<char>) -> Seq<Seq<char>>
    decreases s.len(),
{
    if s.len() == 0 {
        seq![seq![]]
    } else {
        let before = split_fields(s.drop_last());
        if s.last() == '|' {
            before.push(seq![])
        } else {
            before.update(before.len() - 1, before.last().push(s.last()))
        }
    }
}

/// Field `i` of a table, empty where the table has no such field.
pub open spec fn table_entry(table: Seq<char>, i: int) -> Seq<char> {
    let fields = split_fields(table);
    if 0 <= i < fields.len() {
        fields[i]
    } else {
        seq![]
    }
}

/// Field `i` of `table`.
pub fn table_field(table: &'static str, i: usize) -> (r: &'static str)
    ensures
        r@ == table_entry(table@, i as int),
{
    let len = table.unicode_len();
    let mut count: usize = 0;
    let mut start: usize = 0;
    let mut end: usize = len;
    let mut k: usize = 0;
    proof {
        assert(table@.take(0) =~= seq![]);
    }
    for c in it: table.chars()
        invariant
            k == it.index(),
            len == table@.len(),
            it.seq() == table@,
            k <= len,
            count <= k,
            split_fields(table@.take(k as int)).len() == count + 1,
            count == i ==> start <= k && split_fields(table@.take(k as int))[i as int]
                == table@.subrange(start as int, k as int),
            count > i ==> start <= end <= k && split_fields(table@.take(k as int))[i as int]
                == table@.subrange(start as int, end as int),
            count <= i ==> end == len,
    {
        proof {
            let next = table@.take(k + 1);
            assert(next.drop_last() =~= table@.take(k as int));
            assert(next.last() == c);
            if count == i {
                assert(table@.subrange(start as int, k + 1) =~= table@.subrange(
                    start as int,
                    k as int,
                ).push(c));
            }
        }
        if c == '|' {
            if count == i {
                end = k;
            }
            count += 1;
            if count == i {
                start = k + 1;
                assert(table@.subrange(start as int, k + 1) =~= seq![]);
            }
        }
        k += 1;
    }
    proof {
        assert(table@.take(len as int) =~= table@);
        reveal_strlit("");
    }
    if count < i {
        ""
    } else {
        table.substring_char(start, end)
    }
}

/// Names of the sixty-four hexagrams, by index.
pub const HEXAGRAM_NAMES: &'static str = "坤为地|地雷复|地水师|地泽临|地山谦|地火明夷|地风升|地天泰|雷地豫|震为雷|雷水解|雷泽归妹|雷山小过|雷火丰|雷风恒|雷天大壮|水地比|水雷屯|坎为水|水泽节|水山蹇|水火既济|水风井|水天需|泽地萃|泽雷随|泽水困|兑为泽|泽山咸|泽火革|泽风大过|泽天夬|山地剥|山雷颐|山水蒙|山泽损|艮为山|山火贲|山风蛊|山天大畜|火地晋|火雷噬嗑|火水未济|火泽睽|火山旅|离为火|火风鼎|火天大有|风地观|风雷益|风水涣|风泽中孚|风山渐|风火家人|巽为风|风天小畜|天地否|天雷无妄|天水讼|天泽履|天山遁|天火同人|天风姤|乾为天";

/// Judgment text of each hexagram, by index.
pub const JUDGMENT_CLASSICS: &'static str = "坤：元，亨，利牝马之贞。君子有攸往，先迷后得主，利。西南得朋，东北丧朋。安贞，吉。|复：亨。出入无疾，朋来无咎。反复其道，七日来复，利有攸往。|师：贞，丈人吉无咎。|临：元，亨，利，贞。至于八月有凶。|谦：亨，君子有终。|明夷：利艰贞。|升：元亨，用见大人，勿恤，南征吉。|泰：小往大来，吉亨。|豫：利建侯行师。|震：亨。震来虩虩，笑言哑哑。震惊百里，不丧匕鬯。|解：利西南，无所往，其来复吉。有攸往，夙吉。|归妹：征凶，无攸利。|小过：亨，利贞，可小事，不可大事。飞鸟遗之音，不宜上宜下，大吉。|丰：亨，王假之，勿忧，宜日中。|恒：亨，无咎，利贞，利有攸往。|大壮：利贞。|比：吉。原筮，元永贞，无咎。不宁方来，后夫凶。|屯：元亨利贞，勿用有攸往，利建侯。|习坎：有孚，维心亨，行有尚。|节：亨。苦节不可贞。|蹇：利西南，不利东北。利见大人，贞吉。|既济：亨，小利贞，初吉终乱。|井：改邑不改井，无丧无得，往来井井。汔至，亦未繘井，羸其瓶，凶。|需：有孚，光亨，贞吉。利涉大川。|萃：亨。王假有庙，利见大人，亨，利贞。用大牲吉，利有攸往。|随：元亨利贞，无咎。|困：亨，贞，大人吉，无咎，有言不信。|兑：亨，利贞。|咸：亨，利贞，取女吉。|革：己日乃孚，元亨利贞，悔亡。|大过：栋桡，利有攸往，亨。|夬：扬于王庭，孚号有厉，告自邑，不利即戎，利有攸往。|剥：不利有攸往。|颐：贞吉。观颐，自求口实。|蒙：亨。匪我求童蒙，童蒙求我。初筮告，再三渎，渎则不告。利贞。|损：有孚，元吉，无咎，可贞，利有攸往。曷之用，二簋可用享。|艮：艮其背，不获其身，行其庭，不见其人，无咎。|贲：亨。小利有攸往。|蛊：元亨，利涉大川。先甲三日，后甲三日。|大畜：利贞，不家食吉，利涉大川。|晋：康侯用锡马蕃庶，昼日三接。|噬嗑：亨，利用狱。|未济：亨，小狐汔济，濡其尾，无攸利。|睽：小事吉。|旅：小亨，旅贞吉。|离：利贞，亨。畜牝牛，吉。|鼎：元吉，亨。|大有：元亨。|观：盥而不荐，有孚颙若。|益：利有攸往，利涉大川。|涣：亨。王假有庙，利涉大川，利贞。|中孚：豚鱼吉，利涉大川，利贞。|渐：女归吉，利贞。|家人：利女贞。|巽：小亨，利有攸往，利见大人。|小畜：亨。密云不雨，自我西郊。|否：否之匪人，不利君子贞，大往小来。|无妄：元亨，利贞。其匪正有眚，不利有攸往。|讼：有孚，窒惕，中吉，终凶。利见大人，不利涉大川。|履：履虎尾，不咥人，亨。|遁：亨，小利贞。|同人：同人于野，亨。利涉大川，利君子贞。|姤：女壮，勿用取女。|乾：元，亨，利，贞。";

/// Plain gloss of each judgment, by index.
pub const JUDGMENT_GLOSSES: &'static str = "坤卦象征大地：至为亨通，宜如牝马般柔顺守正。君子有所前往，先则迷途，后必得主导而有利。西南方得同类，东北方失同类。安顺守正则吉。|复卦亨通。出入无碍，朋来无咎。循道反复，七日一回归，宜有所前往。|师卦宜守正，任用老成持重之人则吉无咎。|临卦：元亨利贞。然至八月将有凶。居高思危。|谦卦亨通，君子能得其善终。|明夷卦利于在艰难中守正。韬光养晦之象。|升卦元亨，宜见大人，勿忧，南征则吉。|泰卦：小者去大者来，吉而亨通。|豫卦利于封侯建邦与出师。|震卦亨通。雷震来时瑟瑟惊惧，而后笑语和乐。雷惊百里，不失匕鬯祭祀之礼。|解卦利西南，无所往则复归而吉；有所往则早行而吉。|归妹卦：征则凶，无所利。|小过卦亨通，利守正，可小事不可大事。飞鸟遗其音，不宜上宜下，则大吉。|丰卦亨通，王者致其盛大，勿忧，宜如日中天。|恒卦亨通，无咎，利守正，利有所往。|大壮卦利于守正。|比卦吉。原审而占长远守正，无咎。不宁之方来附，迟后者凶。|屯卦元亨利贞，勿有所往，宜立侯以辅。|重重坎险，有诚信维系心之亨通，行而有尚。|节卦亨通。然苦于过分节制不可守正。|蹇卦利西南，不利东北。利见大人，守正吉。|既济卦亨通，小者利守正，初吉而终乱。|井卦：迁邑不改井，无丧无得，往来井然。汲水将及未出井，毁其瓶，凶。|需卦有诚信，光耀亨通，守正吉。利涉大川。|萃卦亨通。王至于宗庙，利见大人。利于守正。用大牲祭吉，利有所往。|随卦元亨利贞，无咎。|困卦亨通守正，大人则吉无咎，但有言而无人信。|兑卦亨通，利守正。|咸卦亨通，利守正，娶女吉。|革卦到己日乃能令人信服，元亨利贞，悔亡。|大过卦：屋栋桡曲，利有所往，亨通。|夬卦：于王庭显扬，诚信号呼有厉，自邑告诫，不利于即戎，利有所往。|剥卦：不利有所往。|颐卦守正吉。观其所养，自求口实。|蒙卦亨通。非我求童蒙，乃童蒙求我。初筮则告，再三则渎，渎则不告。利守正。|损卦有诚信，元吉无咎，可守贞，利有所往。何用鲜饰，二簋即可用享。|艮卦止于背，不见其身；行于庭不见其人，无咎。|贲卦亨通。小利有所往。|蛊卦元亨，利涉大川。先甲三日，后甲三日，慎始善后。|大畜卦利守正，不食于家吉，利涉大川。|晋卦：康侯受赐众多马匹，一日三接。|噬嗑卦亨通，利于用狱断案。|未济卦亨通，小狐将渡而濡尾，无所利。|睽卦：小事吉。|旅卦小亨，行旅守正吉。|离卦利守正，亨通。畜养牝牛吉。|鼎卦元吉，亨通。|大有卦元亨。|观卦：盥洗未荐，诚信颙敬。|益卦利有所往，利涉大川。|涣卦亨通。王至于庙，利涉大川，利守正。|中孚卦：豚鱼亦吉，利涉大川，利守正。|渐卦：女子归嫁吉，利守正。|家人卦利女守贞。|巽卦小亨，利有所往，利见大人。|小畜卦亨通。密云不雨，起自我西郊。|否卦：闭塞之非人，不利君子守贞，大者往上小者来下。|无妄卦元亨，利贞。若行匪正则眚，不利有所往。|讼卦有诚信，窒惕戒惧，中吉终凶。利见大人，不利涉大川。|履卦：履虎尾，虎不咥人，亨通。|遁卦亨通，小利守贞。|同人卦：与野之人同心，亨。利涉大川，利君子守贞。|姤卦：女壮，勿用娶此女。|乾卦：元始、亨通、和利、守正。";

/// Line statements, six per hexagram, bottom line first.
pub const LINE_CLASSICS: &'static str = "履霜，坚冰至。|直，方，大，不习无不利。|含章可贞。或从王事，无成有终。|括囊，无咎无誉。|黄裳，元吉。|龙战于野，其血玄黄。|不远复，无祗悔，元吉。|休复，吉。|频复，厉无咎。|中行独复。|敦复，无悔。|迷复，凶，有灾眚。|师出以律，否臧，凶。|在师中，吉无咎，王三锡命。|师或舆尸，凶。|师左次，无咎。|田有禽，利执言，无咎。长子帅师，弟子舆尸，贞凶。|大君有命，开国承家，小人勿用。|咸临，贞吉。|咸临，吉无不利。|甘临，无攸利。既忧之，无咎。|至临，无咎。|知临，大君之宜，吉。|敦临，吉无咎。|谦谦君子，用涉大川，吉。|鸣谦，贞吉。|劳谦，君子有终，吉。|无不利，捴谦。|不富，以其邻，利用侵伐，无不利。|鸣谦，利用行师，征邑国。|明夷于飞，垂其翼。君子于行，三日不食，有攸往，主人有言。|明夷，夷于左股，用拯马壮，吉。|明夷于南狩，得其大首，不可疾贞。|入于左腹，获明夷之心，于出门庭。|箕子之明夷，利贞。|不明晦，初登于天，后入于地。|允升，大吉。|孚乃利用禴，无咎。|升虚邑。|王用亨于岐山，吉无咎。|贞吉，升阶。|冥升，利于不息之贞。|拔茅茹，以其汇，征吉。|包荒，用冯河，不遐遗，朋亡，得尚于中行。|无平不陂，无往不复，艰贞无咎。勿恤其孚，于食有福。|翩翩不富，以其邻，不戒以孚。|帝乙归妹，以祉元吉。|城复于隍，勿用师，自邑告命，贞吝。|鸣豫，凶。|介于石，不终日，贞吉。|盱豫悔，迟有悔。|由豫，大有得。勿疑，朋盍簪。|贞疾，恒不死。|冥豫，成有渝，无咎。|震来虩虩，后笑言哑哑，吉。|震来厉，亿丧贝，跻于九陵，勿逐，七日得。|震苏苏，震行无眚。|震遂泥。|震往来厉，亿无丧，有事。|震索索，视矍矍，征凶。震不于其躬，于其邻，无咎。婚媾有言。|无咎。|田获三狐，得黄矢，贞吉。|负且乘，致寇至，贞吝。|解而拇，朋至斯孚。|君子维有解，吉，有孚于小人。|公用射隼于高墉之上，获之，无不利。|归妹以归妹以娣，跛能履，征吉。|眇能视，利幽人之贞。|归妹以须，反归以娣。|归妹愆期，迟归有时。|帝乙归妹，其君之袂，不如其娣之袂良。月几望，吉。|女承筐无实，士刲羊无血，无攸利。|飞鸟以凶。|过其祖，遇其妣；不及其君，遇其臣，无咎。|弗过防之，从或戕之，凶。|无咎，弗过遇之。往厉必戒，勿用永贞。|密云不雨，自我西郊，公弋取彼在穴。|弗遇过之，飞鸟离之，凶，是谓灾眚。|遇其配主，虽旬无咎，往有尚。|丰其蔀，日中见斗，往得疑疾，有孚发若，吉。|丰其沛，日中见沫，折其右肱，无咎。|丰其蔀，日中见斗，遇其夷主，吉。|来章，有庆誉，吉。|丰其屋，蔀其家，窥其户，阒其无人，三岁不觌，凶。|浚恒，贞凶，无攸利。|悔亡。|不恒其德，或承之羞，贞吝。|田无禽。|恒其德，贞，妇人吉，夫子凶。|振恒，上六，凶。|壮于趾，征凶，有孚。|贞吉。|小人用壮，君子用罔，贞厉。羝羊触藩，羸其角。|藩决不羸，壮于大舆之輹。|丧羊于易，无悔。|羝羊触藩，不能退，不能遂，无攸利，艰则吉。|有孚比之，无咎。有孚盈缶，终来有它吉。|比之自内，贞吉。|比之匪人。|外比之，贞吉。|显比，王用三驱，失前禽。邑人不诫，吉。|比之无首，凶。|磐桓，利居贞，利建侯。|屯如邅如，乘马班如。匪寇婚媾，女子贞不字，十年乃字。|即鹿无虞，惟入于林中，君子几不如舍，往吝。|乘马班如，求婚媾，往吉无不利。|屯其膏，小贞吉，大贞凶。|乘马班如，泣血涟如。|习坎，入于坎窞，凶。|坎有险，求小得。|来之坎坎，险且枕，入于坎窞，勿用。|樽酒簋贰，用缶，纳约自牖，终无咎。|坎不盈，祗既平，无咎。|系用徽纆，寘于丛棘，三岁不得，凶。|不出户庭，无咎。|不出门庭，凶。|不节若，则嗟若，无咎。|安节，亨。|甘节，吉，往有尚。|苦节，贞凶，悔亡。|往蹇来誉。|王臣蹇蹇，匪躬之故。|往蹇来反。|往蹇来连。|大蹇朋来。|往蹇来硕，吉，利见大人。|曳其轮，濡其尾，无咎。|妇丧其茀，勿逐，七日得。|高宗伐鬼方，三年克之，小人勿用。|繻有衣袽，终日戒。|东邻杀牛，不如西邻之禴祭，实受其福。|濡其首，厉。|井泥不食，旧井无禽。|井谷射鲋，瓮敝漏。|井渫不食，为我心恻，可用汲，王明并受其福。|井甃，无咎。|井冽寒泉食。|井收勿幕，有孚元吉。|需于郊，利用恒，无咎。|需于沙，小有言，终吉。|需于泥，致寇至。|需于血，出自穴。|需于酒食，贞吉。|入于穴，有不速之客三人来，敬之终吉。|有孚不终，乃乱乃萃，若号一握为笑，勿恤，往无咎。|引吉无咎，孚乃利用禴。|萃如嗟如，无攸利，往无咎，小吝。|大吉，无咎。|萃有位，无咎，匪孚，元永贞，悔亡。|赍咨涕洟，无咎。|官有渝，贞吉。出门交有功。|系小子，失丈夫。|系丈夫，失小子。随有求得，利居贞。|随有获，贞凶，有孚在道，以明，何咎。|孚于嘉，吉。|拘系之，乃从维之，王用亨于西山。|臀困于株木，入于幽谷，三岁不觌。|困于酒食，朱绂方来，利用享祀，征凶，无咎。|困于石，据于蒺藜，入于其宫，不见其妻，凶。|来徐徐，困于金车，吝，有终。|劓刖，困于赤绂，乃徐有说，利用祭祀。|困于葛藟，于臲卼，曰动悔，有悔，征吉。|和兑，吉。|孚兑，吉，悔亡。|来兑，凶。|商兑未宁，介疾有喜。|孚于剥，有厉。|引兑。|咸其拇。|咸其腓，凶，居吉。|咸其股，执其随，往吝。|贞吉悔亡，憧憧往来，朋从尔思。|咸其脢，无悔。|咸其辅颊舌。|巩用黄牛之革。|己日乃革之，征吉，无咎。|征凶，贞厉，革言三就，有孚。|悔亡，有孚改命，吉。|大人虎变，未占有孚。|君子豹变，小人革面，征凶，居贞吉。|藉用白茅，无咎。|枯杨生稊，老夫得其女妻，无不利。|栋桡，凶。|栋隆，吉，有它吝。|枯杨生华，老妇得其士夫，无咎无誉。|过涉灭顶，凶，无咎。|壮于前趾，往不胜为咎。|惕号，莫夜有戎，勿恤。|壮于頄，有凶。君子夬夬，独行遇雨，若濡有愠，无咎。|臀无肤，其行次且，牵羊悔亡，闻言不信。|苋陆夬夬，中行无咎。|无号，终有凶。|剥床以足，蔑贞凶。|剥床以辨，蔑贞凶。|剥之，无咎。|剥床以肤，凶。|贯鱼，以宫人宠，无不利。|硕果不食，君子得舆，小人剥庐。|舍尔灵龟，观我朵颐，凶。|颠颐，拂经，于丘颐，征凶。|拂颐，贞凶，十年勿用，无攸利。|颠颐吉，虎视眈眈，其欲逐逐，无咎。|拂经，居贞吉，不可涉大川。|由颐，厉吉，利涉大川。|发蒙，利用刑人，用说桎梏，以往吝。|包蒙吉，纳妇吉，子克家。|勿用取女，见金夫，不有躬，无攸利。|困蒙，吝。|童蒙，吉。|击蒙，不利为寇，利御寇。|已事遄往，无咎，酌损之。|利贞，征凶，弗损益之。|三人行，则损一人；一人行，则得其友。|损其疾，使遄有喜，无咎。|或益之十朋之龟，弗克违，元吉。|弗损益之，无咎，贞吉，利有攸往，得臣无家。|艮其趾，无咎，利永贞。|艮其腓，不拯其随，其心不快。|艮其限，列其夤，厉熏心。|艮其身，无咎。|艮其辅，言有序，悔亡。|敦艮，吉。|贲其趾，舍车而徒。|贲其须。|贲如濡如，永贞吉。|贲如皤如，白马翰如，匪寇婚媾。|贲于丘园，束帛戋戋，吝，终吉。|白贲，无咎。|干父之蛊，有子，考无咎，厉终吉。|干母之蛊，不可贞。|干父之蛊，小有悔，无大咎。|裕父之蛊，往见吝。|干父之蛊，用誉。|不事王侯，高尚其事。|有厉，利已。|舆说輹。|良马逐，利艰贞。曰闲舆卫，利有攸往。|童牛之牿，元吉。|豮豕之牙，吉。|何天之衢，亨。|晋如，摧如，贞吉。罔孚，裕无咎。|晋如，愁如，贞吉。受兹介福，于其王母。|众允，悔亡。|晋如鼫鼠，贞厉。|悔亡，失得勿恤，往吉无不利。|晋其角，维用伐邑，厉吉无咎，贞吝。|屦校灭趾，无咎。|噬肤灭鼻，无咎。|噬腊肉，遇毒，小吝，无咎。|噬干胏，得金矢，利艰贞，吉。|噬干肉，得黄金，贞厉无咎。|何校灭耳，凶。|濡其尾，吝。|曳其轮，贞吉。|未济，征凶，利涉大川。|贞吉，悔亡，震用伐鬼方，三年有赏于大国。|贞吉，无悔，君子之光，有孚，吉。|有孚于饮酒，无咎，濡其首，有孚失是。|悔亡，丧马勿逐，自复。见恶人无咎。|遇主于巷，无咎。|见舆曳，其牛掣，其人天且劓，无初有终。|睽孤，遇元夫，交孚，厉无咎。|悔亡，厥宗噬肤，往何咎。|睽孤，见豕负涂，载鬼一车，先张之弧，后说之弧，匪寇婚媾，往遇雨则吉。|旅琐琐，斯其所取灾。|旅即次，怀其资，得童仆贞。|旅焚其次，丧其童仆，贞厉。|旅于处，得其资斧，我心不快。|射雉一矢亡，终以誉命。|鸟焚其巢，旅人先笑后号咷，丧牛于易，凶。|履错然，敬之无咎。|黄离，元吉。|日昃之离，不鼓缶而歌，则大耋之嗟，凶。|突如其来如，焚如，死如，弃如。|出涕沱若，戚嗟若，吉。|王用出征有嘉，折首获匪其丑，无咎。|鼎颠趾，利出否，得妾以其子，无咎。|鼎有实，我仇有疾，不我能即，吉。|鼎耳革，其行塞，雉膏不食，方雨亏悔，终吉。|鼎折足，覆公餗，其形渥，凶。|鼎黄耳金铉，利贞。|鼎玉铉，大吉，无不利。|无交害，匪咎，艰则无咎。|大车以载，有攸往，无咎。|公用亨于天子，小人弗克。|匪其彭，无咎。|厥孚交如，威如，吉。|自天佑之，吉无不利。|童观，小人无咎，君子吝。|窥观，利女贞。|观我生，进退。|观国之光，利用宾于王。|观我生，君子无咎。|观其生，君子无咎。|利用为大作，元吉无咎。|或益之十朋之龟，弗克违，永贞吉，王用享于帝，吉。|益之用凶事，无咎，有孚中行，告公用圭。|中行告公从，利用为依迁国。|有孚惠心，勿问元吉，有孚惠我德。|莫益之，或击之，立心勿恒，凶。|用拯马壮，吉。|涣奔其机，悔亡。|涣其躬，无悔。|涣其群，元吉，涣有丘，匪夷所思。|涣汗其大号，涣王居，无咎。|涣其血，去逖出，无咎。|虞吉，有它不燕。|鸣鹤在阴，其子和之。我有好爵，吾与尔靡之。|得敌，或鼓或罢，或泣或歌。|月几望，马匹亡，无咎。|有孚挛如，无咎。|翰音登于天，贞凶。|鸿渐于干，小子厉，有言无咎。|鸿渐于磐，饮食衎衎，吉。|鸿渐于陆，夫征不复，妇孕不育，凶，利御寇。|鸿渐于木，或得其桷，无咎。|鸿渐于陵，妇三岁不孕，终莫之胜，吉。|鸿渐于阿，其羽可用为仪，吉。|闲有家，悔亡。|无攸遂，在中馈，贞吉。|家人嗃嗃，悔厉吉。妇子嘻嘻，终吝。|富家，大吉。|王假有家，勿恤吉。|有孚威如，终吉。|进退，利武人之贞。|巽在床下，用史巫纷若，吉无咎。|频巽，吝。|悔亡，田获三品。|贞吉悔亡，无不利，无初有终。先庚三日，后庚三日，吉。|巽在床下，丧其资斧，贞凶。|复自道，何其咎，吉。|牵复，吉。|舆说辐，夫妻反目。|有孚，血去惕出，无咎。|有孚挛如，富以其邻。|既雨既处，尚德载，妇贞厉，月几望，君子征凶。|拔茅茹，以其汇，贞吉，亨。|包承，小人吉，大人否，亨。|包羞。|有命无咎，畴离祉。|休否，大人吉。其亡其亡，系于苞桑。|倾否，先否后喜。|无妄，往吉。|不耕获，不菑畲，则利有攸往。|无妄之灾，或系之牛，行人之得，邑人之灾。|可贞，无咎。|无妄之疾，勿药有喜。|无妄行，有眚，无攸利。|不永所事，小有言，终吉。|不克讼，归而逋其邑人三百户，无眚。|食旧德，贞厉，终吉。或从王事，无成。|不克讼，复即命，渝，安贞吉。|讼元吉。|或锡之鞶带，终朝三褫之。|素履往无咎。|履道坦坦，幽人贞吉。|眇能视，跛能履，履虎尾，咥人凶。武人为于大君。|履虎尾，愬愬终吉。|夬履，贞厉。|视履考祥，其旋元吉。|遁尾，厉，勿用有攸往。|执之用黄牛之革，莫之胜说。|系遁，有疾厉，畜臣妾吉。|好遁，君子吉，小人否。|嘉遁，贞吉。|肥遁，无不利。|同人于门，无咎。|同人于宗，吝。|伏戎于莽，升其高陵，三岁不兴。|乘其墉，弗克攻，吉。|同人，先号咷而后笑，大师克相遇。|同人于郊，无悔。|系于金柅，贞吉，有攸往，见凶，羸豕孚蹢躅。|包有鱼，无咎，不利宾。|臀无肤，其行次且，厉，无大咎。|包无鱼，起凶。|以杞包瓜，含章，有陨自天。|姤其角，吝，无咎。|潜龙勿用。|见龙在田，利见大人。|君子终日乾乾，夕惕若厉，无咎。|或跃在渊，无咎。|飞龙在天，利见大人。|亢龙有悔。";

/// Plain gloss of each line statement, laid out as `LINE_CLASSICS`.
pub const LINE_GLOSSES: &'static str = "脚下踩到霜，坚冰将至。见微知著，阴气始凝。|正直、方正、宏大，不必修习亦无往不利。自然之德。|含蓄章美而能守正。或参与王事，不居功而有善终。|扎紧袋口，无咎也无誉。慎言谨行，收敛自守。|黄色下裳，至为吉祥。中道柔顺之德。|龙在郊野交战，流出玄黄之血。阴盛至极而抗阳。|走得不远便回复，不致大悔，至吉。早知早改。|安休而复，吉。停下回归正道。|屡复屡退，有危厉而无咎。频复须自勉。|独自从正道而行。与众偕行而能自返。|敦厚而复，无悔。笃诚复正。|迷而不复，凶，有灾患。执迷不返则凶。|出师须凭严格的军纪，纪律不善则凶。|居中统师，吉无咎，君王三次赐命嘉奖。|军队或致舆尸而归，凶。败军之象。|军队驻扎左方据守，无咎。稳守无失。|田中有禽兽宜驱捕，无咎。长子统师得当，弟子则致舆尸，守正亦凶。|天子颁命，开国封家，但小人不可任用。|以感应之道监临，守正吉。|以感应之道监临，吉无不利。|以甜言甘辞监临，无所利。若能忧惧警省，则无咎。|以切身至诚监临，无咎。|以明智监临，乃大国君之相宜，吉。|以敦厚之道监临，吉无咎。|谦而又谦的君子，可涉大川，吉。|鸣其谦德而守正，吉。|勤劳而谦逊，君子有终，吉。|无所不利，举事而谦。|不富而能得其邻，宜于征伐，无所不利。|鸣谦之德，宜用兵征讨己之邑国。|明夷时飞而垂翼。君子行役，三日不食，有所前往而遭主人讥议。|明夷时伤在左腿，乘壮马相救则吉。|明夷时在南狩得敌之首，不可急图守正。|入于左腹，得明夷之心意，出门庭而退遁。|如箕子之明夷韬晦，利守正。|昏暗至极，初登于天而后坠入地。明道陨落。|顺势而升，大吉。|有诚信则宜用简省祭祀，无咎。|升入空虚无阻之邑。畅通无碍。|王者亨祭于岐山，吉无咎。|守正而吉，逐阶而升。|昏冥而升，宜不息守正。|拔茅牵连同类，往而征吉。|包容荒秽，徒步涉河，不弃远，亡其朋党，得合中道而行。|无平不陡，无往不复，艰中守正无咎。勿忧其信，于食有福。|翩然下行而不富，携其邻，不戒而信。|帝乙嫁妹，以之受福至吉。|城墙倾复于隍堑，勿用兵，自邑告命，守贞有吝。|鸣其自豫，凶。|坚介如石，不终日而能悟，守正则吉。|张目企慕于豫则有悔，迟疑亦有悔。|以宽厚致豫，大有得。勿疑，朋合如簪聚发。|守正而疾，长久不死。|昏冥而豫，事成而能变，无咎。|震来惊惧，后笑语和乐，吉。|震来有危厉，巨额丧财，登于九陵，勿逐，七日复得。|震而苏醒警惧，震动前行则无眚。|震惧陷于泥。坠而失其健。|震往来皆有厉，幸无所丧，但有事惧当处。|震而索索，视而矍矍，征则凶。震不及其身而及其邻，无咎。婚姻有闲言。|无咎。柔居最下，刚柔相济。|田猎获三狐，得黄矢，守正吉。|背负又乘载，招致寇盗，守贞有吝。德不称位。|解开你足大趾之缚，朋来至此而见诚信。|君子若能解难则吉，且信诚感及小人。|公在高墙上射隼而获之，无不利。|以妹为娣陪嫁，跛足而能履，征吉。|盲而能视，宜幽居守贞之人。|以待女而嫁，反以娣身份归嫁。|归妹延期，迟嫁亦有时。|帝乙嫁妹，姊之衣不如娣之衣华美。月近圆，吉。|女子承筐无实，男子刺羊无血，无所利。|飞鸟妄上则凶。|越过祖父而遇祖母，未及君而遇臣，无咎。|不过分防备之，反被戕害，凶。|无咎，不过分而相值。前往有厉须戒，不可固守。|密云不雨，起自我西郊，公射取穴中之鸟。|不相值而过之，飞鸟离散而凶，是为灾眚。|遇见相配之主，虽十日相当无咎，往则有尚。|草席遮蔽丰大，日中见斗星，往则生疑疾，有诚信发挥则吉。|丰其幔幕，日中见小星，折其右臂，无咎。|草席遮蔽丰大，日中见斗星，遇其平主则吉。|来致其章美，有庆誉，吉。|丰其屋蔀其家，窥其户而寂无人，三年不见，凶。|深求其恒，守正亦凶，无所利。|悔恨消亡。|不能恒守其德，或致蒙羞，守贞有吝。|田猎无获。|恒守其德守正，妇人吉而丈夫凶。|振动失恒于上，凶。|壮于足趾，征则凶，但存诚信。|守正则吉。|小人逞强，君子用网，守贞有厉。如公羊触藩被羸其角。|藩篱已决不羸其角，壮如大车之輹。|丧羊于边邑，无悔。|公羊触藩，进退不得，无所利，处艰则吉。|以诚信相比，无咎。诚若盈缶，终致他吉。|发自内心相比，守正吉。|比附非其人。|外相比之，守正吉。|显明相比，王三驱田猎失前禽，邑人不诫，吉。|比附而无首，凶。|盘桓难进，宜居守正，宜建侯。|屯难徘徊，乘马班旋。非寇乃婚媾，女子守贞不嫁，十年乃嫁。|逐鹿无虞人导引，入林中，君子宜舍不宜往，往则吝。|乘马班旋，求婚媾，往吉无不利。|屯其膏泽，小事守正吉，大事守贞凶。|乘马班旋，泣血涟涟。|重坎入于坎陷深处，凶。|坎中有险，求得小利。|坎险接连而来，险且枕危，入于坎陷，勿用。|一樽酒二簋，以瓦缶盛，自牖纳约，终无咎。|坎险未盈满，将平则无咎。|系以绳索，置于丛棘中，三年不得出，凶。|不出户庭，无咎。|不出门庭，凶。当出不出。|不能节制则嗟叹，无咎。|安于节制，亨通。|甘心节制，吉，往有尚。|苦于过分节制，守贞凶，悔亡。|往则蹇难，来则有誉。|王臣蹇蹇济难，并非自身之故。|往则蹇难，来则复反其常。|往则蹇难，来则连合相助。|大蹇之时朋来相助。|往则蹇难，来则硕大成事，吉，利见大人。|拖曳车轮，濡湿狐尾，无咎。|妇人丧其首饰，勿逐，七日复得。|殷高宗伐鬼方，三年克之，小人勿用。|盛装之中备破衣，终日戒备。|东邻杀牛盛祭，不如西邻简祭，实受其福。|濡湿其首，有危厉。|井有泥不可食，废井无禽。|井谷射小鱼，瓮破漏失。|井已疏浚仍不食，使我心恻，可汲用，王明则共受其福。|井以砖砌，无咎。|井泉清冽寒凉可食。|井收绳不掩盖，有诚信至吉。|需待于郊野，能恒守则无咎。|需待于沙，小有口舌，终吉。|需待于泥，招致寇盗。|需待于血，自穴中而出。|需待于酒食，守正吉。|入于穴，意外来客三人，敬之终吉。|诚信不终则紊乱而聚，若号呼一握成笑，勿忧，往无咎。|引致而吉无咎，有诚信则宜简祭。|聚而嗟叹，无所利，往无咎，小有吝。|大吉则无咎。|聚而有位无咎，然未得诚信，长久守正则悔亡。|叹息流涕，无咎。|官事有变，守正吉。出门交有功。|系于小子则失丈夫。|系于丈夫则失小子。随而有求则得，宜居守正。|随而有获，守贞凶，有诚信在道以明，何咎。|诚信于善，吉。|拘系之又从而维系，王亨祭于西山。|臀困于株木，入于幽谷，三年不见其能展。|困于酒食，朱衣方来，宜用享祀，征凶，无咎。|困于石，据蒺藜，入宫不见其妻，凶。|来而徐缓，困于金车，有吝，有终。|施劓刖之刑，困于赤衣，徐而解脱，宜用祭祀。|困于葛藟臲卼之危，动则有悔，悔而后征吉。|和悦相处，吉。|诚信而悦，吉，悔亡。|求来致悦，凶。|商筹未宁，介耿有疾而后有喜。|信于剥损小人，有危厉。|引诱致悦。|感于足大拇。|感于小腿肚，凶，安居则吉。|感于腿股，执意相随，往则吝。|守正吉悔亡，往来不绝，朋从尔思。|感于背脊，无悔。|感于口舌辅颊。|以黄牛之革巩固约束。|己日乃变革之，征吉，无咎。|征凶贞厉，变革之事三议而后就，有诚信。|悔亡，有诚信以改天命，吉。|大人如虎之变革，未占已有诚信。|君子如豹之变，小人改面，征凶，居守正吉。|以白茅藉垫祭物，无咎。|枯杨生新芽，老夫得少妻，无不利。|屋栋桡曲将折，凶。|屋栋隆起，吉，但另有它吝。|枯杨开花，老妇得壮夫，无咎无誉。|涉水灭顶，凶，然志在必为无咎。|壮于前趾，往不胜则咎。|警惧号呼，暮夜有兵戎，勿忧。|壮于面颊，有凶。君子决然独行遇雨，虽濡有愠，无咎。|臀无肤，行进迟缓，牵羊悔亡，闻言不信。|如苋陆果决去除，中道而行无咎。|无人号呼，终有凶。|剥床自足始，灭贞则凶。|剥床至辨，灭贞则凶。|剥而无咎。|剥床至于肤，凶。|贯鱼而入，如宫人受宠，无不利。|硕果不食，君子得车，小人剥其庐。|舍去你的灵龟，只羡我大嚼，凶。|颠倒养道，违背常法，求养于丘，征凶。|违养道，守贞凶，十年勿用，无所利。|颠颐则吉，虎视眈眈而欲逐逐，无咎。|违常经，居守正吉，不可涉大川。|由以养道，厉而吉，利涉大川。|启发蒙昧，宜用刑人以脱桎梏，既往则吝。|包容蒙昧吉，纳妇吉，子能克家。|勿取此女，见金夫而失身，无所利。|困于蒙昧，吝。|童稚蒙昧，吉。|击退蒙昧，不利为寇，利御寇。|讫事速往，无咎，酌情减损。|利守正，征凶，不可损而当益之。|三人行损一人，一人行得其友。|治其病使速有喜，无咎。|或益以十贝之龟，不可拒，元吉。|不损反益之，无咎，贞吉，利有所往，得臣无家。|止于足趾，无咎，利于长久守正。|止于小腿，不能救助相随者，其心不快。|止于腰部，脊肉分裂，厉如薰心。|止于其身，无咎。|止于口辅，言有序，悔亡。|敦厚而止，吉。|文饰其足趾，舍车徒步。|文饰其须。|文饰而润泽，长久守正吉。|素白文饰，白马飞驰，非寇乃婚媾。|文饰于丘园，束帛甚少，有吝，终吉。|素白无饰，无咎。|整治父之积弊，有子则考无咎，虽厉终吉。|整治母之积弊，不可固执守正。|整治父之积弊，小有悔，无大咎。|宽纵父之积弊，往则有吝。|整治父之积弊，得美誉。|不事王侯，高尚其志。|有危厉，宜止。|车脱其輹。|良马驰逐，利艰中守正。闲习车卫，利有所往。|童牛加牿，元吉。|豮豕之牙，吉。|荷天之衢，亨通。|晋进而受摧，守正吉。未得信，宽裕无咎。|晋进而愁，守正吉。受此大福，于王母。|众人允许，悔亡。|晋进如鼫鼠贪而怯，守贞有厉。|悔亡，得失勿忧，往吉无不利。|晋至于角，唯用伐邑，厉而吉无咎，守贞有吝。|戴校灭趾，无咎。小惩大诫。|噬皮灭鼻，无咎。|噬腊肉遇毒，小吝，无咎。|噬带骨干肉得金矢，利艰贞，吉。|噬干肉得黄金，守贞厉无咎。|荷校灭耳，凶。|濡其尾，吝。|拖曳车轮，守正吉。|未济之时，征凶，但利涉大川。|守正吉悔亡，用震动之力伐鬼方，三年受赏于大国。|守正吉无悔，君子之光有诚信，吉。|诚信于饮酒，无咎，濡其首则失其诚信之道。|悔亡，丧马勿逐自复。见恶人无咎。|巷中遇主，无咎。|见车被曳，其牛受掣，其人受天劓之刑，无初有终。|睽违而孤，遇初见之人相交以诚，有厉无咎。|悔亡，其宗人相噬其肤，往有何咎。|睽孤见豕涂载，鬼车张弧又说弧，非寇乃婚媾，往遇雨则吉。|行旅琐屑卑屑，自取灾患。|旅居有次舍，怀其资财，得童仆而贞。|旅次被焚，丧其童仆，守贞有厉。|旅居处得资斧，我心不快。|射雉虽失一矢，终以誉命得之。|鸟焚其巢，旅人先笑后号咷，丧牛于易，凶。|履步错杂，敬慎则无咎。|黄色之明丽，元吉。|日昃之离，不鼓缶而歌则老人嗟叹，凶。|突然而来如焚如死如弃如，凶。不受位之人。|出涕如沱，悲戚嗟叹，吉。|王用出征而有嘉功，斩首获其丑类，无咎。|鼎覆足倒利于倾出秽物，得妾以其子，无咎。|鼎中有实，我仇有疾不能近我，吉。|鼎耳革变，其行阻塞，雉膏不得食，方雨而悔亏，终吉。|鼎折足，覆公之餗，其形渥，凶。|鼎黄耳金铉，利守正。|鼎玉铉，大吉无不利。|无相交之害，本非咎，艰则无咎。|大车以载，有所往，无咎。|公亨于天子，小人不能当。|非过盛之彭，无咎。|其孚交而威，吉。|自天佑之，吉无不利。|童稚之观，小人无咎，君子则有吝。|窥牖而观，利女守贞。|观我所生以定进退。|观国之光荣，宜为王者宾。|观我之所生，君子无咎。|观其民之所生，君子无咎。|宜为大作，元吉无咎。|或益以十贝之龟，不可拒，永贞吉，王享于帝，吉。|益用于凶事，无咎，有孚中行，告公用圭。|中行告公而从，宜依之迁国。|有诚信惠人之心，勿问元吉，人亦以诚信惠我德。|无人益之反或击之，立心不恒，凶。|用拯以壮马，吉。|涣散奔就机座，悔亡。|涣散其身，无悔。|涣散其朋党，元吉，涣有丘聚，非常人所能思。|涣汗其大号，涣王之居，无咎。|涣散其血，远去而出，无咎。|安虞则吉，有他则不安。|鸣鹤在阴，其子和之。我有好爵，与你共靡之。|得敌人，或鼓或罢，或泣或歌。|月近圆，马匹亡，无咎。|有诚信挛结如一，无咎。|翰音登于天，守贞凶。|鸿渐于水涯，小子有厉，虽言语之争无咎。|鸿渐于磐石，饮食和乐，吉。|鸿渐于陆，夫征不复，妇孕不育，凶，利御寇。|鸿渐于木，或得平柯，无咎。|鸿渐于陵，妇三年不孕，终无人能胜之，吉。|鸿渐于阿，其羽可用为仪，吉。|防闲其家，悔亡。|无所自营，主中馈之事，守正吉。|家人嗃嗃严治，悔厉而吉。妇子嘻嘻失节，终吝。|富其家，大吉。|王至于家，勿忧吉。|有诚信威严，终吉。|进退犹豫，宜武人之守正。|巽在床下，用史巫纷若祭之，吉无咎。|频频巽顺，吝。|悔亡，田猎获三品。|守贞吉悔亡，无不利，无初有终。先庚三日，后庚三日，吉。|巽在床下，丧其资斧，守贞凶。|复自其道，何咎之有，吉。|牵连而复，吉。|车脱其辐，夫妻反目。|有诚信，去血出惕，无咎。|有诚信挛结如一，富以其邻。|既雨既止，尚德而载，妇贞厉，月近望，君子征凶。|拔茅连根同类，守贞吉，亨通。|包容承受，小人吉，大人处否，亨。|包藏羞辱。|有命则无咎，同类共受其祉。|休止其否，大人吉。心忧其亡，系于苞桑。|倾覆其否，先否后喜。|无妄而往，吉。|不耕而获不菑而畲，则利有所往。|无妄之灾，或系之牛，行人得之，邑人受其灾。|可守正，无咎。|无妄之疾，勿药自喜。|无妄之时妄行有眚，无所利。|不长讼其事，小有口舌，终吉。|讼不胜，归而逃匿其邑人三百户，无眚。|食其旧德，守贞厉而终吉。或从王事，无成。|讼不胜，复归于命而变渝，安贞则吉。|讼而得理，元吉。|或赐以鞶带，一朝三夺之。|素其履而往，无咎。|履道平坦，幽人守贞吉。|眇而视跛而履，履虎尾咥人凶。武人为大君。|履虎尾而愬愬戒惧，终吉。|果决而履，守贞有厉。|视履考其吉祥，其旋反元吉。|遁居其尾，厉，勿有所往。|执以黄牛之革固守，莫能脱说。|系居其遁，有疾厉，畜臣妾吉。|好而能遁，君子吉，小人否。|嘉而能遁，守贞吉。|宽裕其遁，无不利。|同人与门，无咎。|同人与宗族，吝。|伏兵于莽，登高陵，三年不兴。|乘其城墙而不能克攻，吉。|同人，先号咷而后笑，大师克胜相遇。|同人与郊，无悔。|系于金柅，守贞吉，有所往见凶，羸豕欲动蹢躅。|包中有鱼，无咎，不利于宾。|臀无肤，行迟缓，有厉，无大咎。|包中无鱼，起凶。|以杞叶包瓜，含章美，有陨自天。|姤遇其角，吝，无咎。|潜藏之龙，不宜妄动。时机未至。|见龙在田，利于出现大德之人。|君子终日勤勉不息，夜晚警惕，虽厉无咎。|或跃于深渊，进退审时，无咎。|飞龙在天，利于出现大德之人。|龙飞过高而有悔。盛极必衰。";

} // verus!
