//! The built-in catalog of public-domain books used to top up a
//! corpus, and the URL and path each entry downloads to. The download
//! itself — a shell-out to an HTTP tool — happens outside the library.

use vstd::prelude::*;

use crate::text::{decimal_string, spec_decimal};

verus! {

/// Book metadata for downloading: a digital-library identifier and the
/// file name it is stored under.
pub struct BookMetadata {
    pub id: u32,
    pub name: String,
}

impl BookMetadata {
    /// An entry with this identifier and name.
    pub fn new(id: u32, name: &str) -> (b: BookMetadata)
        ensures
            b.id == id,
            b.name@ == name@,
    {
        BookMetadata { id, name: String::from_str(name) }
    }

    /// The URL this book downloads from.
    pub fn gutenberg_url(&self) -> (r: String)
        ensures
            r@ == "https://www.gutenberg.org/ebooks/"@ + spec_decimal(self.id as nat)
                + ".txt.utf-8"@,
    {
        String::from_str("https://www.gutenberg.org/ebooks/").concat(
            decimal_string(self.id as u128).as_str(),
        ).concat(".txt.utf-8")
    }

    /// The path the book is stored at under the books directory.
    pub fn file_path(&self, books_dir: &str) -> (r: String)
        ensures
            r@ == books_dir@ + "/"@ + self.name@ + ".txt"@,
    {
        String::from_str(books_dir).concat("/").concat(self.name.as_str()).concat(".txt")
    }
}

/// How many more files are needed to reach the requested count.
pub fn books_needed(current_file_count: usize, requested_file_count: usize) -> (r: usize)
    ensures
        r == if requested_file_count > current_file_count {
            requested_file_count - current_file_count
        } else {
            0
        },
{
    if requested_file_count > current_file_count {
        requested_file_count - current_file_count
    } else {
        0
    }
}

/// The built-in catalog of books available for download.
pub fn get_available_books() -> (v: Vec<BookMetadata>)
    ensures
        v@.len() == 196,
        v@[0].id == 1661,
        v@[0].name@ == "Sherlock_Holmes"@,
{
    let mut v: Vec<BookMetadata> = Vec::new();
    catalog_part_1(&mut v);
    catalog_part_2(&mut v);
    catalog_part_3(&mut v);
    catalog_part_4(&mut v);
    catalog_part_5(&mut v);
    v
}

fn catalog_part_1(v: &mut Vec<BookMetadata>)
    ensures
        final(v)@.len() == old(v)@.len() + 40,
        final(v)@.subrange(0, old(v)@.len() as int) == old(v)@,
        final(v)@[old(v)@.len() as int].id == 1661,
        final(v)@[old(v)@.len() as int].name@ == "Sherlock_Holmes"@,
{
    v.push(BookMetadata::new(1661, "Sherlock_Holmes"));
    v.push(BookMetadata::new(1952, "Pride_and_Prejudice"));
    v.push(BookMetadata::new(2701, "Moby_Dick"));
    v.push(BookMetadata::new(174, "Dorian_Gray"));
    v.push(BookMetadata::new(11, "Alice_in_Wonderland"));
    v.push(BookMetadata::new(98, "A_Tale_of_Two_Cities"));
    v.push(BookMetadata::new(514, "Little_Women"));
    v.push(BookMetadata::new(1342, "Jane_Eyre"));
    v.push(BookMetadata::new(5200, "Crime_and_Punishment"));
    v.push(BookMetadata::new(203, "Uncle_Toms_Cabin"));
    v.push(BookMetadata::new(244, "The_Jungle"));
    v.push(BookMetadata::new(25, "Scarlet_Letter"));
    v.push(BookMetadata::new(12, "Through_Looking_Glass"));
    v.push(BookMetadata::new(1947, "Importance_Being_Earnest"));
    v.push(BookMetadata::new(13, "The_Metamorphosis"));
    v.push(BookMetadata::new(14, "Dubliners"));
    v.push(BookMetadata::new(3289, "Mystery_Yellow_Room"));
    v.push(BookMetadata::new(45, "The_Murders_Rue_Morgue"));
    v.push(BookMetadata::new(1265, "The_Moonstone"));
    v.push(BookMetadata::new(1400, "Great_Expectations"));
    v.push(BookMetadata::new(768, "Wuthering_Heights"));
    v.push(BookMetadata::new(84, "Frankenstein"));
    v.push(BookMetadata::new(2852, "Hound_of_Baskervilles"));
    v.push(BookMetadata::new(1259, "Dracula"));
    v.push(BookMetadata::new(158, "Emma"));
    v.push(BookMetadata::new(417, "Mansfield_Park"));
    v.push(BookMetadata::new(121, "Northanger_Abbey"));
    v.push(BookMetadata::new(105, "Persuasion"));
    v.push(BookMetadata::new(28054, "Brothers_Karamazov"));
    v.push(BookMetadata::new(2542, "Oliver_Twist"));
    v.push(BookMetadata::new(730, "Oliver_Goldsmith_Works"));
    v.push(BookMetadata::new(2408, "The_Adventures_of_Sherlock_Holmes"));
    v.push(BookMetadata::new(1322, "Middlemarch"));
    v.push(BookMetadata::new(145, "Robinson_Crusoe"));
    v.push(BookMetadata::new(6811, "The_Water_Babies"));
    v.push(BookMetadata::new(19184, "The_Awakening"));
    v.push(BookMetadata::new(2500, "Don_Quixote"));
    v.push(BookMetadata::new(3825, "The_Brothers_Karamazov_Translation"));
    v.push(BookMetadata::new(4085, "Anna_Karenina"));
    v.push(BookMetadata::new(6727, "War_and_Peace"));
    proof {
        assert(v@.subrange(0, old(v)@.len() as int) =~= old(v)@);
    }
}

fn catalog_part_2(v: &mut Vec<BookMetadata>)
    ensures
        final(v)@.len() == old(v)@.len() + 40,
        final(v)@.subrange(0, old(v)@.len() as int) == old(v)@,
{
    v.push(BookMetadata::new(996, "Ulysses"));
    v.push(BookMetadata::new(27827, "The_Great_Gatsby"));
    v.push(BookMetadata::new(2814, "Treasure_Island"));
    v.push(BookMetadata::new(1041, "Don_Juan"));
    v.push(BookMetadata::new(17157, "The_Picture_of_Dorian_Gray_2"));
    v.push(BookMetadata::new(8800, "A_Room_of_Ones_Own"));
    v.push(BookMetadata::new(17154, "The_Brothers_Grimm_Tales"));
    v.push(BookMetadata::new(3321, "The_Importance_of_Being_Earnest_Alt"));
    v.push(BookMetadata::new(17, "The_Book_of_Mormon"));
    v.push(BookMetadata::new(10393, "The_Magna_Carta"));
    v.push(BookMetadata::new(48526, "Beowulf"));
    v.push(BookMetadata::new(19347, "Jane_Austen_Letters"));
    v.push(BookMetadata::new(3839, "Heart_of_Darkness"));
    v.push(BookMetadata::new(288, "Three_Men_in_a_Boat"));
    v.push(BookMetadata::new(4373, "Sons_and_Lovers"));
    v.push(BookMetadata::new(43289, "The_Strange_Case_of_Dr_Jekyll"));
    v.push(BookMetadata::new(209, "The_Turn_of_the_Screw"));
    v.push(BookMetadata::new(4838, "North_and_South"));
    v.push(BookMetadata::new(10379, "The_Tenant_of_Wildfell_Hall"));
    v.push(BookMetadata::new(1058, "Vanity_Fair"));
    v.push(BookMetadata::new(766, "David_Copperfield"));
    v.push(BookMetadata::new(1019, "Oliver_Twist_Revised"));
    v.push(BookMetadata::new(967, "Nicholas_Nickleby"));
    v.push(BookMetadata::new(823, "The_Old_Curiosity_Shop_Alt"));
    v.push(BookMetadata::new(1354, "Bleak_House"));
    v.push(BookMetadata::new(1023, "Hard_Times_Alt"));
    v.push(BookMetadata::new(17158, "Little_Dorrit_Alt"));
    v.push(BookMetadata::new(652, "The_Mystery_of_Edwin_Drood"));
    v.push(BookMetadata::new(833, "The_Woman_in_White_Alt"));
    v.push(BookMetadata::new(1024, "Armadale_Novel"));
    v.push(BookMetadata::new(1027, "Phineas_Finn_Alt"));
    v.push(BookMetadata::new(1028, "Can_You_Forgive_Her_Alt"));
    v.push(BookMetadata::new(750, "Barnaby_Rudge"));
    v.push(BookMetadata::new(755, "Martin_Chuzzlewit"));
    v.push(BookMetadata::new(821, "Dombey_and_Son"));
    v.push(BookMetadata::new(1029, "The_Chimes"));
    v.push(BookMetadata::new(46, "A_Christmas_Carol"));
    v.push(BookMetadata::new(16, "The_Haunted_Man"));
    v.push(BookMetadata::new(1030, "The_Tenant_of_Ulverstone"));
    v.push(BookMetadata::new(1031, "The_Vicar_of_Wakefield"));
    proof {
        assert(v@.subrange(0, old(v)@.len() as int) =~= old(v)@);
    }
}

fn catalog_part_3(v: &mut Vec<BookMetadata>)
    ensures
        final(v)@.len() == old(v)@.len() + 40,
        final(v)@.subrange(0, old(v)@.len() as int) == old(v)@,
{
    v.push(BookMetadata::new(1032, "Evelina"));
    v.push(BookMetadata::new(1033, "The_Castle_of_Otranto"));
    v.push(BookMetadata::new(1034, "Ivanhoe"));
    v.push(BookMetadata::new(1035, "Rob_Roy"));
    v.push(BookMetadata::new(1036, "The_Bride_of_Lammermoor"));
    v.push(BookMetadata::new(1037, "Waverley"));
    v.push(BookMetadata::new(1038, "The_Heart_of_Midlothian"));
    v.push(BookMetadata::new(1039, "Redgauntlet"));
    v.push(BookMetadata::new(1040, "The_Antiquary"));
    v.push(BookMetadata::new(1715, "The_Laodicean"));
    v.push(BookMetadata::new(3247, "Two_on_a_Tower"));
    v.push(BookMetadata::new(4244, "A_Changed_Man"));
    v.push(BookMetadata::new(1260, "Tess_Revised"));
    v.push(BookMetadata::new(3242, "The_Eustace_Diamonds"));
    v.push(BookMetadata::new(1059, "No_Name"));
    v.push(BookMetadata::new(10363, "The_Cricket_on_the_Hearth"));
    v.push(BookMetadata::new(2595, "George_Eliot_Works"));
    v.push(BookMetadata::new(507, "Romola"));
    v.push(BookMetadata::new(3456, "Silas_Marner"));
    v.push(BookMetadata::new(1593, "The_Mill_on_the_Floss"));
    v.push(BookMetadata::new(4610, "Adam_Bede"));
    v.push(BookMetadata::new(2821, "The_Vicar_of_Bullhampton"));
    v.push(BookMetadata::new(3622, "He_Knew_He_Was_Right"));
    v.push(BookMetadata::new(1344, "Can_You_Forgive_Her"));
    v.push(BookMetadata::new(1345, "Phineas_Finn"));
    v.push(BookMetadata::new(2803, "The_Eustace_Diamonds_Revised"));
    v.push(BookMetadata::new(1347, "Phineas_Redux"));
    v.push(BookMetadata::new(1348, "The_Prime_Minister"));
    v.push(BookMetadata::new(1349, "The_Duke's_Children"));
    v.push(BookMetadata::new(1350, "Lady_Anna"));
    v.push(BookMetadata::new(1351, "The_Belton_Estate"));
    v.push(BookMetadata::new(2160, "Tattle_and_Tell"));
    v.push(BookMetadata::new(2161, "Orley_Farm"));
    v.push(BookMetadata::new(2162, "The_Bertrams"));
    v.push(BookMetadata::new(2163, "Castle_Richmond"));
    v.push(BookMetadata::new(2164, "Miss_Mackenzie"));
    v.push(BookMetadata::new(2165, "The_Small_House_at_Allington"));
    v.push(BookMetadata::new(2166, "Framley_Parsonage"));
    v.push(BookMetadata::new(2167, "The_Last_Chronicle_of_Barset"));
    v.push(BookMetadata::new(3325, "Warden"));
    proof {
        assert(v@.subrange(0, old(v)@.len() as int) =~= old(v)@);
    }
}

fn catalog_part_4(v: &mut Vec<BookMetadata>)
    ensures
        final(v)@.len() == old(v)@.len() + 40,
        final(v)@.subrange(0, old(v)@.len() as int) == old(v)@,
{
    v.push(BookMetadata::new(3326, "Barchester_Towers"));
    v.push(BookMetadata::new(3327, "Doctor_Thorne"));
    v.push(BookMetadata::new(2592, "The_Tenant_of_Wildfell_Hall_Revised"));
    v.push(BookMetadata::new(2593, "Villette"));
    v.push(BookMetadata::new(2947, "The_Tenant_of_Wildfell_Hall_Alternate"));
    v.push(BookMetadata::new(4260, "Pilgrims_Progress"));
    v.push(BookMetadata::new(4261, "Christian_Allegory"));
    v.push(BookMetadata::new(4262, "The_Holy_War"));
    v.push(BookMetadata::new(1078, "Robinson_Crusoe_Revised"));
    v.push(BookMetadata::new(1079, "Moll_Flanders"));
    v.push(BookMetadata::new(3687, "A_Journal_of_the_Plague_Year"));
    v.push(BookMetadata::new(3688, "Roxana"));
    v.push(BookMetadata::new(2591, "Captain_Singleton"));
    v.push(BookMetadata::new(23427, "The_Tempest"));
    v.push(BookMetadata::new(23428, "A_Midsummer_Nights_Dream"));
    v.push(BookMetadata::new(23429, "Much_Ado_About_Nothing"));
    v.push(BookMetadata::new(23430, "The_Merchant_of_Venice"));
    v.push(BookMetadata::new(23431, "As_You_Like_It"));
    v.push(BookMetadata::new(23432, "Twelfth_Night"));
    v.push(BookMetadata::new(23433, "The_Comedy_of_Errors"));
    v.push(BookMetadata::new(23434, "Alls_Well_That_Ends_Well"));
    v.push(BookMetadata::new(23435, "Measure_for_Measure"));
    v.push(BookMetadata::new(23436, "The_Taming_of_the_Shrew"));
    v.push(BookMetadata::new(1533, "Hamlet"));
    v.push(BookMetadata::new(1534, "Macbeth"));
    v.push(BookMetadata::new(1535, "Romeo_and_Juliet"));
    v.push(BookMetadata::new(1536, "Othello"));
    v.push(BookMetadata::new(1537, "King_Lear"));
    v.push(BookMetadata::new(1538, "The_Winters_Tale"));
    v.push(BookMetadata::new(1539, "The_Two_Gentlemen_of_Verona"));
    v.push(BookMetadata::new(1540, "The_Twelfth_Night_Alt"));
    v.push(BookMetadata::new(3780, "Wuthering_Heights_Alt"));
    v.push(BookMetadata::new(2610, "Sense_and_Sensibility"));
    v.push(BookMetadata::new(4217, "Jane_Eyre_Revised"));
    v.push(BookMetadata::new(7155, "The_Yellow_Wallpaper"));
    v.push(BookMetadata::new(1080, "A_Tale_of_Two_Cities_Revised"));
    v.push(BookMetadata::new(20203, "The_Invisible_Man"));
    v.push(BookMetadata::new(101, "The_Time_Machine"));
    v.push(BookMetadata::new(22854, "The_Island_of_Doctor_Moreau"));
    v.push(BookMetadata::new(104, "The_War_of_the_Worlds"));
    proof {
        assert(v@.subrange(0, old(v)@.len() as int) =~= old(v)@);
    }
}

fn catalog_part_5(v: &mut Vec<BookMetadata>)
    ensures
        final(v)@.len() == old(v)@.len() + 36,
        final(v)@.subrange(0, old(v)@.len() as int) == old(v)@,
{
    v.push(BookMetadata::new(1232, "The_First_Men_in_the_Moon"));
    v.push(BookMetadata::new(5178, "A_Modest_Proposal_Revised"));
    v.push(BookMetadata::new(4081, "A_Room_of_Ones_Own_Revised"));
    v.push(BookMetadata::new(2788, "The_Tenant_of_Wildfell_Hall_Alt"));
    v.push(BookMetadata::new(2833, "The_Herland"));
    v.push(BookMetadata::new(3658, "Little_Women_Revised"));
    v.push(BookMetadata::new(4380, "Anne_of_Green_Gables"));
    v.push(BookMetadata::new(6593, "Rebecca_of_Sunnybrook_Farm"));
    v.push(BookMetadata::new(4934, "The_Secret_Garden"));
    v.push(BookMetadata::new(41445, "The_Railway_Children"));
    v.push(BookMetadata::new(2958, "What_Maisie_Knew"));
    v.push(BookMetadata::new(3405, "The_Portrait_of_a_Lady"));
    v.push(BookMetadata::new(2614, "The_Turn_of_the_Screw_Revised"));
    v.push(BookMetadata::new(2397, "Tess_of_the_d_Urbervilles"));
    v.push(BookMetadata::new(4254, "Jude_the_Obscure"));
    v.push(BookMetadata::new(149, "The_Mayor_of_Casterbridge"));
    v.push(BookMetadata::new(150, "Far_from_the_Madding_Crowd"));
    v.push(BookMetadata::new(2344, "Return_of_the_Native"));
    v.push(BookMetadata::new(175, "Under_the_Greenwood_Tree"));
    v.push(BookMetadata::new(153, "The_Woodlanders"));
    v.push(BookMetadata::new(40432, "A_Pair_of_Blue_Eyes"));
    v.push(BookMetadata::new(3318, "The_Hand_of_Ethelberta"));
    v.push(BookMetadata::new(1404, "Desperate_Remedies"));
    v.push(BookMetadata::new(2631, "Well_Beloved"));
    v.push(BookMetadata::new(55, "The_Scarlet_Pimpernel"));
    v.push(BookMetadata::new(106, "Nostromo"));
    v.push(BookMetadata::new(1998, "Don_Quixote_Part_2"));
    v.push(BookMetadata::new(147, "The_Last_of_the_Mohicans"));
    v.push(BookMetadata::new(120, "The_Odyssey"));
    v.push(BookMetadata::new(1564, "The_Iliad"));
    v.push(BookMetadata::new(1101, "The_Republic"));
    v.push(BookMetadata::new(108, "Brave_New_World"));
    v.push(BookMetadata::new(1950, "The_Three_Musketeers"));
    v.push(BookMetadata::new(16389, "20000_Leagues_Under_the_Sea"));
    v.push(BookMetadata::new(41, "The_Federalist_Papers"));
    v.push(BookMetadata::new(2680, "Les_Miserables"));
    proof {
        assert(v@.subrange(0, old(v)@.len() as int) =~= old(v)@);
    }
}

} // verus!
